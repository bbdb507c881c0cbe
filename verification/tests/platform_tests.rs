//! The Platform surfaces: service lowering and projection, API definition
//! creation with its derived resources, and the cross-API transformers.

use flowplane::cluster_handlers::get_cluster;
use flowplane::cluster_model::{ClusterSpec, CreateClusterBody, EndpointSpec};
use flowplane::errors::ApiError;
use flowplane::json::JsonVal;
use flowplane::platform_api_definitions::{
    api_to_route_config, default_backoff, default_load_balancing, default_required,
    default_weight, ApiDefinition, ApiPolicies, ApiRoute, AuthenticationPolicy, RateLimitPolicy,
    TimeoutPolicy, UpstreamConfig, UpstreamEndpoint,
};
use flowplane::platform_api_handlers::{
    create_api_definition, delete_api_definition, get_api_definition_by_id, list_api_definitions,
    update_api_definition,
};
use flowplane::platform_api_definitions::ListApisQuery;
use flowplane::platform_service_handlers::{
    create_service, delete_service, get_service, list_services, load_balancing_to_string,
    string_to_load_balancing, update_service, ListServicesQuery, LoadBalancingStrategy,
    ServiceDefinition, ServiceEndpoint, ServiceHealthCheck,
};
use flowplane::platform_transformers::{
    cluster_name_to_service_name, cluster_to_service, create_cross_api_metadata,
    generate_id_from_name, is_platform_api_routes, is_platform_service_cluster,
    policies_to_filters, routes_to_api_summary, service_to_cluster_response,
};
use flowplane::repository::Repository;
use flowplane::route_handlers::get_route;
use flowplane::route_validate::summarize_route;
use flowplane::xds_state::{ClusterStored, RouteStored, XdsClusterSnapshot, XdsRouteSnapshot};

fn sample_service() -> ServiceDefinition {
    ServiceDefinition {
        name: "user-service".to_string(),
        endpoints: vec![ServiceEndpoint {
            host: "user-service.internal".to_string(),
            port: 8080,
            weight: 100,
            metadata: None,
        }],
        load_balancing: LoadBalancingStrategy::RoundRobin,
        health_check: Some(ServiceHealthCheck {
            path: "/health".to_string(),
            interval: 10,
            timeout: 3,
            healthy_threshold: 2,
            unhealthy_threshold: 2,
        }),
        circuit_breaker: None,
        outlier_detection: None,
        metadata: None,
    }
}

fn sample_api_definition() -> ApiDefinition {
    ApiDefinition {
        name: "users-api".to_string(),
        version: "1.0.0".to_string(),
        base_path: "/api/v1/users".to_string(),
        upstream: UpstreamConfig {
            service: "user-service".to_string(),
            endpoints: vec![UpstreamEndpoint {
                host: "user-service.internal".to_string(),
                port: 8080,
                weight: 100,
            }],
            tls: false,
            load_balancing: "ROUND_ROBIN".to_string(),
        },
        routes: vec![
            ApiRoute {
                path: "/".to_string(),
                methods: vec!["GET".to_string(), "POST".to_string()],
                description: None,
                policies: None,
            },
            ApiRoute {
                path: "/{id}".to_string(),
                methods: vec!["GET".to_string(), "PUT".to_string(), "DELETE".to_string()],
                description: None,
                policies: None,
            },
        ],
        policies: None,
        metadata: None,
    }
}

#[test]
fn test_create_api_definition() {
    let mut cluster_repo: Repository<ClusterStored> = Repository::new();
    let mut cluster_snapshot = XdsClusterSnapshot::new();
    let mut route_repo: Repository<RouteStored> = Repository::new();
    let mut route_snapshot = XdsRouteSnapshot::new();
    let (status, response) = create_api_definition(
        &mut cluster_repo,
        &mut cluster_snapshot,
        &mut route_repo,
        &mut route_snapshot,
        sample_api_definition(),
    )
    .expect("create api definition");
    assert_eq!(status, 201);
    assert_eq!(response.id.len(), 36);
    assert_eq!(response.cluster_id, format!("{}-cluster", response.id));
    assert_eq!(response.route_config_id, format!("{}-routes", response.id));
    assert_eq!(response.listener_id, format!("{}-listener", response.id));

    let cluster = get_cluster(&cluster_repo, &response.cluster_id).expect("derived cluster");
    assert_eq!(cluster.service_name, "user-service");
    match &cluster.config.endpoints[0] {
        EndpointSpec::Address { host, port } => {
            assert_eq!(host, "user-service.internal");
            assert_eq!(*port, 8080);
        }
        _ => panic!("expected an address endpoint"),
    }

    let route = get_route(&route_repo, &response.route_config_id).expect("derived routes");
    assert_eq!(route.path_prefix, "/api/v1/users/");
    assert_eq!(route.cluster_targets, "user-service");
    assert_eq!(route.config.virtual_hosts[0].routes.len(), 2);

    let summary = get_api_definition_by_id(&route_repo, &response.id).expect("get by id");
    match summary {
        JsonVal::Obj(_) => {}
        _ => panic!("expected a summary object"),
    }
    let listed = list_api_definitions(
        &route_repo,
        &ListApisQuery { limit: None, offset: None, name: None, version: None },
    );
    assert_eq!(listed.len(), 1);
}

#[test]
fn test_api_definition_validation() {
    let mut cluster_repo: Repository<ClusterStored> = Repository::new();
    let mut cluster_snapshot = XdsClusterSnapshot::new();
    let mut route_repo: Repository<RouteStored> = Repository::new();
    let mut route_snapshot = XdsRouteSnapshot::new();
    let mut api = sample_api_definition();
    api.routes.clear();
    let result = create_api_definition(
        &mut cluster_repo,
        &mut cluster_snapshot,
        &mut route_repo,
        &mut route_snapshot,
        api,
    );
    assert!(matches!(result, Err(ApiError::BadRequest(_))));
}

#[test]
fn test_delete_api_definition() {
    let mut cluster_repo: Repository<ClusterStored> = Repository::new();
    let mut cluster_snapshot = XdsClusterSnapshot::new();
    let mut route_repo: Repository<RouteStored> = Repository::new();
    let mut route_snapshot = XdsRouteSnapshot::new();
    let (_, response) = create_api_definition(
        &mut cluster_repo,
        &mut cluster_snapshot,
        &mut route_repo,
        &mut route_snapshot,
        sample_api_definition(),
    )
    .expect("create api definition");
    let code = delete_api_definition(
        &mut cluster_repo,
        &mut cluster_snapshot,
        &mut route_repo,
        &mut route_snapshot,
        &response.id,
    )
    .expect("cascade delete");
    assert_eq!(code, 204);
    assert!(route_repo.get_by_name(&response.route_config_id).is_none());
    assert!(cluster_repo.get_by_name(&response.cluster_id).is_none());
    let again = delete_api_definition(
        &mut cluster_repo,
        &mut cluster_snapshot,
        &mut route_repo,
        &mut route_snapshot,
        &response.id,
    );
    assert!(matches!(again, Err(ApiError::NotFound(_))));
}

#[test]
fn platform_round_trip_summary_matches_base_path() {
    let api = sample_api_definition();
    let derived = api_to_route_config(&api, "users-routes");
    let (path_prefix, cluster) = summarize_route(&derived);
    assert_eq!(path_prefix, format!("{}{}", api.base_path, api.routes[0].path));
    assert_eq!(cluster, "user-service");
}

#[test]
fn test_create_service_transforms_to_cluster() {
    let mut repo: Repository<ClusterStored> = Repository::new();
    let mut snapshot = XdsClusterSnapshot::new();
    let (status, response) =
        create_service(&mut repo, &mut snapshot, "row-1".to_string(), sample_service())
            .expect("create service");
    assert_eq!(status, 201);
    assert_eq!(response.name, "user-service");
    assert_eq!(response.cluster_id, "user-service");

    let cluster = get_cluster(&repo, "user-service").expect("backing cluster");
    assert_eq!(cluster.config.lb_policy.as_deref(), Some("ROUND_ROBIN"));
    assert_eq!(cluster.config.health_checks.len(), 1);
}

#[test]
fn test_list_services_shows_platform_view() {
    let mut repo: Repository<ClusterStored> = Repository::new();
    let mut snapshot = XdsClusterSnapshot::new();
    create_service(&mut repo, &mut snapshot, "row-1".to_string(), sample_service())
        .expect("create service");
    let services = list_services(&repo, &ListServicesQuery { limit: None, offset: None });
    assert_eq!(services.len(), 1);
    assert_eq!(services[0].name, "user-service");
    assert_eq!(services[0].endpoints.len(), 1);
    assert_eq!(services[0].endpoints[0].host, "user-service.internal");
    assert_eq!(services[0].endpoints[0].port, 8080);
}

#[test]
fn test_get_service_by_name() {
    let mut repo: Repository<ClusterStored> = Repository::new();
    let mut snapshot = XdsClusterSnapshot::new();
    create_service(&mut repo, &mut snapshot, "row-1".to_string(), sample_service())
        .expect("create service");
    let service = get_service(&repo, "user-service").expect("get service");
    assert_eq!(service.name, "user-service");
    assert!(matches!(get_service(&repo, "missing"), Err(ApiError::NotFound(_))));
}

#[test]
fn test_update_service() {
    let mut repo: Repository<ClusterStored> = Repository::new();
    let mut snapshot = XdsClusterSnapshot::new();
    create_service(&mut repo, &mut snapshot, "row-1".to_string(), sample_service())
        .expect("create service");
    let mut changed = sample_service();
    changed.endpoints.push(ServiceEndpoint {
        host: "user-service-2.internal".to_string(),
        port: 8081,
        weight: 100,
        metadata: None,
    });
    let response = update_service(
        &mut repo,
        &mut snapshot,
        "user-service",
        "row-2".to_string(),
        changed,
    )
    .expect("update service");
    assert_eq!(response.endpoints.len(), 2);
    let stored = repo.get_by_name("user-service").expect("stored cluster");
    assert_eq!(stored.version, 2);
}

#[test]
fn test_delete_service() {
    let mut repo: Repository<ClusterStored> = Repository::new();
    let mut snapshot = XdsClusterSnapshot::new();
    create_service(&mut repo, &mut snapshot, "row-1".to_string(), sample_service())
        .expect("create service");
    let code = delete_service(&mut repo, &mut snapshot, "user-service").expect("delete");
    assert_eq!(code, 204);
    assert!(repo.get_by_name("user-service").is_none());
}

#[test]
fn test_service_validation() {
    let mut repo: Repository<ClusterStored> = Repository::new();
    let mut snapshot = XdsClusterSnapshot::new();
    let mut service = sample_service();
    service.endpoints.clear();
    let result = create_service(&mut repo, &mut snapshot, "row-1".to_string(), service);
    assert!(matches!(result, Err(ApiError::BadRequest(_))));
}

#[test]
fn load_balancing_names_round_trip() {
    let all = vec![
        LoadBalancingStrategy::RoundRobin,
        LoadBalancingStrategy::LeastRequest,
        LoadBalancingStrategy::Random,
        LoadBalancingStrategy::RingHash,
        LoadBalancingStrategy::Maglev,
    ];
    for strategy in all {
        let name = load_balancing_to_string(&strategy);
        assert_eq!(string_to_load_balancing(name.as_str()), strategy);
    }
    assert_eq!(
        string_to_load_balancing("anything-else"),
        LoadBalancingStrategy::RoundRobin
    );
}

#[test]
fn naming_conventions_identify_platform_resources() {
    assert!(is_platform_service_cluster("user-cluster"));
    assert!(is_platform_service_cluster("a-service-b"));
    assert!(!is_platform_service_cluster("plain"));
    assert_eq!(cluster_name_to_service_name("user-cluster"), "user");
    assert_eq!(cluster_name_to_service_name("plain"), "plain");
    assert!(is_platform_api_routes("users-routes"));
    assert!(is_platform_api_routes("x-api-y"));
    assert!(!is_platform_api_routes("primary"));
}

#[test]
fn generated_ids_are_short_hex() {
    let id = generate_id_from_name("user-service");
    assert!(1 <= id.len() && id.len() <= 5);
    assert!(id.chars().all(|c| c.is_ascii_hexdigit()));
    assert_eq!(id, generate_id_from_name("user-service"));
}

#[test]
fn cluster_projection_reshapes_endpoints() {
    let cluster = ClusterSpec {
        connect_timeout_seconds: None,
        endpoints: vec![
            EndpointSpec::Text("10.0.0.1:9000".to_string()),
            EndpointSpec::Text("bare-host".to_string()),
            EndpointSpec::Address { host: "db.internal".to_string(), port: 5432 },
        ],
        use_tls: None,
        tls_server_name: None,
        dns_lookup_family: None,
        lb_policy: Some("RANDOM".to_string()),
        circuit_breakers: None,
        health_checks: vec![],
        outlier_detection: None,
    };
    let service = cluster_to_service(&cluster);
    assert_eq!(service.endpoints.len(), 3);
    assert_eq!(service.endpoints[0].host, "10.0.0.1");
    assert_eq!(service.endpoints[0].port, 9000);
    assert_eq!(service.endpoints[1].host, "bare-host");
    assert_eq!(service.endpoints[1].port, 80);
    assert_eq!(service.endpoints[2].host, "db.internal");
    assert_eq!(service.endpoints[2].port, 5432);
    assert_eq!(service.load_balancing, LoadBalancingStrategy::Random);
    assert!(service.cluster_id.ends_with("-cluster"));
}

#[test]
fn cluster_projection_maps_every_policy_and_keeps_thresholds() {
    let cluster = ClusterSpec {
        connect_timeout_seconds: None,
        endpoints: vec![EndpointSpec::Address { host: "db.internal".to_string(), port: 5432 }],
        use_tls: None,
        tls_server_name: None,
        dns_lookup_family: None,
        lb_policy: Some("RING_HASH".to_string()),
        circuit_breakers: None,
        health_checks: vec![flowplane::cluster_model::HealthCheckSpec::Http {
            path: "/status".to_string(),
            host: None,
            method: None,
            interval_seconds: Some(7),
            timeout_seconds: None,
            healthy_threshold: Some(4),
            unhealthy_threshold: None,
            expected_statuses: None,
        }],
        outlier_detection: None,
    };
    let service = cluster_to_service(&cluster);
    assert_eq!(service.load_balancing, LoadBalancingStrategy::RingHash);
    let hc = service.health_check.expect("health check kept");
    assert_eq!(hc.path, "/status");
    assert_eq!(hc.interval, 7);
    assert_eq!(hc.timeout, 5);
    assert_eq!(hc.healthy_threshold, 4);
    assert_eq!(hc.unhealthy_threshold, 2);
}

#[test]
fn service_to_cluster_response_carries_defaults() {
    let response = service_to_cluster_response(&sample_service(), "user-cluster");
    assert_eq!(response.name, "user-cluster");
    assert_eq!(response.service_name, "user-service");
    assert_eq!(response.config.connect_timeout_seconds, Some(5));
    assert_eq!(response.config.use_tls, Some(false));
    assert_eq!(response.config.lb_policy.as_deref(), Some("ROUND_ROBIN"));
    assert_eq!(response.config.health_checks.len(), 1);
}

#[test]
fn policy_lowering_emits_configured_filters() {
    let policies = ApiPolicies {
        rate_limit: Some(RateLimitPolicy {
            requests: 100,
            interval: "1m".to_string(),
            key_by: None,
        }),
        authentication: None,
        authorization: None,
        cors: None,
        circuit_breaker: None,
        retry: None,
        timeout: Some(TimeoutPolicy { request: Some(5), idle: None }),
    };
    let filters = policies_to_filters(&policies);
    let rl = filters.get("envoy.filters.http.ratelimit").expect("rate limit filter");
    let descriptors = rl.get("descriptors").expect("descriptors");
    match descriptors {
        JsonVal::Arr(items) => {
            let entries = items[0].get("entries").expect("entries");
            match entries {
                JsonVal::Arr(kvs) => {
                    let value = kvs[0].get("value").expect("value");
                    match value {
                        JsonVal::Str(s) => assert_eq!(s, "100/1m"),
                        _ => panic!("descriptor value should be text"),
                    }
                }
                _ => panic!("entries should be a list"),
            }
        }
        _ => panic!("descriptors should be a list"),
    }
    assert!(filters.get("envoy.filters.http.cors").is_none());
    assert!(filters.get("envoy.filters.http.jwt_authn").is_none());
}

#[test]
fn cross_api_metadata_names_its_source() {
    let meta = create_cross_api_metadata("native_api", "user-cluster");
    match meta.get("source").expect("source") {
        JsonVal::Str(s) => assert_eq!(s, "native_api"),
        _ => panic!("source should be text"),
    }
    match meta.get("original_name").expect("original_name") {
        JsonVal::Str(s) => assert_eq!(s, "user-cluster"),
        _ => panic!("original_name should be text"),
    }
    assert!(meta.get("timestamp").is_some());
}

#[test]
fn route_summary_counts_domains_and_rules() {
    let api = sample_api_definition();
    let derived = api_to_route_config(&api, "users-routes");
    let canonical = derived.to_xds_config().expect("canonical");
    let summary = routes_to_api_summary("users-routes", &canonical);
    match summary.get("routeCount").expect("routeCount") {
        JsonVal::UInt(n) => assert_eq!(*n, 2),
        _ => panic!("routeCount should be a number"),
    }
    match summary.get("domains").expect("domains") {
        JsonVal::Arr(ds) => assert_eq!(ds.len(), 1),
        _ => panic!("domains should be a list"),
    }
    match summary.get("routes").expect("routes") {
        JsonVal::Arr(rules) => {
            assert_eq!(rules.len(), 2);
            let action = rules[0].get("action").expect("rule action");
            match action.get("cluster").expect("cluster target") {
                JsonVal::Str(c) => assert_eq!(c, "user-service"),
                _ => panic!("cluster target should be text"),
            }
            let m = rules[0].get("match").expect("rule match");
            let path = m.get("path").expect("path match");
            match path.get("value").expect("path value") {
                JsonVal::Str(p) => assert_eq!(p, "/api/v1/users/"),
                _ => panic!("path value should be text"),
            }
        }
        _ => panic!("routes should be a list"),
    }
}

#[test]
fn listing_applies_name_filter_and_window() {
    let mut cluster_repo: Repository<ClusterStored> = Repository::new();
    let mut cluster_snapshot = XdsClusterSnapshot::new();
    let mut route_repo: Repository<RouteStored> = Repository::new();
    let mut route_snapshot = XdsRouteSnapshot::new();
    let mut first = sample_api_definition();
    first.name = "users-api".to_string();
    let mut second = sample_api_definition();
    second.name = "orders-api".to_string();
    second.upstream.service = "order-service".to_string();
    let users = create_api_definition(
        &mut cluster_repo,
        &mut cluster_snapshot,
        &mut route_repo,
        &mut route_snapshot,
        first,
    )
    .expect("create users api")
    .1;
    create_api_definition(
        &mut cluster_repo,
        &mut cluster_snapshot,
        &mut route_repo,
        &mut route_snapshot,
        second,
    )
    .expect("create orders api");

    let all = list_api_definitions(
        &route_repo,
        &ListApisQuery { limit: None, offset: None, name: None, version: None },
    );
    assert_eq!(all.len(), 2);

    let filtered = list_api_definitions(
        &route_repo,
        &ListApisQuery {
            limit: None,
            offset: None,
            name: Some(users.id.clone()),
            version: None,
        },
    );
    assert_eq!(filtered.len(), 1);
    match filtered[0].get("id").expect("id") {
        JsonVal::Str(s) => assert_eq!(*s, users.route_config_id),
        _ => panic!("id should be text"),
    }

    let windowed = list_api_definitions(
        &route_repo,
        &ListApisQuery { limit: Some(1), offset: Some(1), name: None, version: None },
    );
    assert_eq!(windowed.len(), 1);
}

#[test]
fn defaults_match_the_documented_values() {
    assert_eq!(default_load_balancing(), "ROUND_ROBIN");
    assert_eq!(default_weight(), 100);
    assert!(default_required());
    assert_eq!(default_backoff(), "exponential");
    let body: CreateClusterBody = flowplane::platform_api_definitions::api_to_cluster(
        &sample_api_definition(),
        "users-cluster",
    );
    assert_eq!(body.name, "users-cluster");
    assert_eq!(body.service_name.as_deref(), Some("user-service"));
    assert_eq!(body.endpoints[0].host, "user-service.internal");
    assert_eq!(body.endpoints[0].port, 8080);
}

#[test]
fn cluster_suffix_stripping_is_thorough() {
    assert_eq!(cluster_name_to_service_name("a-cluster-cluster"), "a");
    assert_eq!(cluster_name_to_service_name("-cluster"), "");
}

#[test]
fn policy_lowering_emits_jwt_only_for_jwt() {
    let jwt = ApiPolicies {
        rate_limit: None,
        authentication: Some(AuthenticationPolicy {
            auth_type: "jwt".to_string(),
            required: false,
            config: None,
        }),
        authorization: None,
        cors: None,
        circuit_breaker: None,
        retry: None,
        timeout: None,
    };
    let filters = policies_to_filters(&jwt);
    assert!(filters.get("envoy.filters.http.jwt_authn").is_some());

    let other = ApiPolicies {
        rate_limit: None,
        authentication: Some(AuthenticationPolicy {
            auth_type: "oauth2".to_string(),
            required: true,
            config: None,
        }),
        authorization: None,
        cors: None,
        circuit_breaker: None,
        retry: None,
        timeout: None,
    };
    let filters = policies_to_filters(&other);
    assert!(filters.get("envoy.filters.http.jwt_authn").is_none());
    match filters {
        JsonVal::Obj(fields) => assert_eq!(fields.len(), 0),
        _ => panic!("filters should be an object"),
    }
}

#[test]
fn test_update_api_definition() {
    let mut cluster_repo: Repository<ClusterStored> = Repository::new();
    let mut cluster_snapshot = XdsClusterSnapshot::new();
    let mut route_repo: Repository<RouteStored> = Repository::new();
    let mut route_snapshot = XdsRouteSnapshot::new();
    let (_, response) = create_api_definition(
        &mut cluster_repo,
        &mut cluster_snapshot,
        &mut route_repo,
        &mut route_snapshot,
        sample_api_definition(),
    )
    .expect("create api definition");

    let mut changed = sample_api_definition();
    changed.routes.push(ApiRoute {
        path: "/search".to_string(),
        methods: vec!["GET".to_string()],
        description: None,
        policies: None,
    });
    let updated = update_api_definition(
        &mut cluster_repo,
        &mut cluster_snapshot,
        &mut route_repo,
        &mut route_snapshot,
        &response.id,
        changed,
    )
    .expect("update api definition");
    assert_eq!(updated.id, response.id);
    let stored = route_repo.get_by_name(&response.route_config_id).expect("route row");
    assert_eq!(stored.version, 2);
    let route = get_route(&route_repo, &response.route_config_id).expect("routes");
    assert_eq!(route.config.virtual_hosts[0].routes.len(), 3);

    let missing = update_api_definition(
        &mut cluster_repo,
        &mut cluster_snapshot,
        &mut route_repo,
        &mut route_snapshot,
        "no-such-id",
        sample_api_definition(),
    );
    assert!(matches!(missing, Err(ApiError::NotFound(_))));
}
