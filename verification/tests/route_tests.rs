//! The route configuration surface: validation, conversion round trips,
//! summaries, and the create / get / update / delete handlers.

use flowplane::errors::ApiError;
use flowplane::repository::Repository;
use flowplane::route_handlers::{
    create_route, delete_route, get_route, list_routes, update_route, ListRoutesQuery,
};
use flowplane::route_model::{
    HeaderMatchDefinition, PathMatchDefinition, RouteActionDefinition, RouteDefinition,
    RouteMatchDefinition, RouteRuleDefinition, VirtualHostDefinition, WeightedClusterDefinition,
};
use flowplane::route_validate::{
    is_default_gateway_route, summarize_route, validate_route_action, validate_route_match,
    validate_route_payload,
};
use flowplane::scoped_config::{ScopedFilterConfig, ScopedFilterEntry};
use flowplane::xds_state::{RouteStored, XdsRouteSnapshot};

fn forward(cluster: &str) -> RouteActionDefinition {
    RouteActionDefinition::Forward {
        cluster: cluster.to_string(),
        timeout_seconds: Some(5),
        prefix_rewrite: None,
        template_rewrite: None,
    }
}

fn prefix_match(value: &str) -> RouteMatchDefinition {
    RouteMatchDefinition {
        path: PathMatchDefinition::Prefix { value: value.to_string() },
        headers: vec![],
        query_parameters: vec![],
    }
}

fn sample_route_definition() -> RouteDefinition {
    RouteDefinition {
        name: "primary-routes".to_string(),
        virtual_hosts: vec![VirtualHostDefinition {
            name: "default".to_string(),
            domains: vec!["*".to_string()],
            routes: vec![RouteRuleDefinition {
                name: Some("api".to_string()),
                route_match: prefix_match("/api"),
                action: forward("api-cluster"),
                typed_per_filter_config: vec![],
            }],
            typed_per_filter_config: vec![],
        }],
    }
}

#[test]
fn create_route_persists_configuration() {
    let mut repo: Repository<RouteStored> = Repository::new();
    let mut snapshot = XdsRouteSnapshot::new();
    let (status, created) = create_route(
        &mut repo,
        &mut snapshot,
        "row-1".to_string(),
        sample_route_definition(),
    )
    .expect("create route");
    assert_eq!(status, 201);
    assert_eq!(created.name, "primary-routes");
    assert_eq!(created.path_prefix, "/api");
    assert_eq!(created.cluster_targets, "api-cluster");
    assert_eq!(created.config.virtual_hosts.len(), 1);

    let stored = repo.get_by_name("primary-routes").expect("stored route");
    assert_eq!(stored.version, 1);
    assert_eq!(stored.data.path_prefix, "/api");
    assert!(stored.data.cluster_name.contains("api-cluster"));
    assert_eq!(snapshot.entries.len(), 1);
    assert_eq!(snapshot.entries[0].name, "primary-routes");
}

#[test]
fn list_routes_returns_entries() {
    let mut repo: Repository<RouteStored> = Repository::new();
    let mut snapshot = XdsRouteSnapshot::new();
    create_route(&mut repo, &mut snapshot, "row-1".to_string(), sample_route_definition())
        .expect("create route");
    let listed = list_routes(&repo, &ListRoutesQuery { limit: None, offset: None });
    assert_eq!(listed.len(), 1);
    assert_eq!(listed[0].name, "primary-routes");
    let offset_out = list_routes(&repo, &ListRoutesQuery { limit: None, offset: Some(5) });
    assert_eq!(offset_out.len(), 0);
}

#[test]
fn get_route_returns_definition() {
    let mut repo: Repository<RouteStored> = Repository::new();
    let mut snapshot = XdsRouteSnapshot::new();
    create_route(&mut repo, &mut snapshot, "row-1".to_string(), sample_route_definition())
        .expect("create route");
    let response = get_route(&repo, "primary-routes").expect("get route");
    assert_eq!(response.name, "primary-routes");
    assert_eq!(response.config.virtual_hosts[0].routes.len(), 1);
    assert!(matches!(get_route(&repo, "absent"), Err(ApiError::NotFound(_))));
}

#[test]
fn update_route_applies_changes() {
    let mut repo: Repository<RouteStored> = Repository::new();
    let mut snapshot = XdsRouteSnapshot::new();
    create_route(&mut repo, &mut snapshot, "row-1".to_string(), sample_route_definition())
        .expect("create route");

    let mut payload = sample_route_definition();
    payload.virtual_hosts[0].routes[0].action = RouteActionDefinition::Weighted {
        clusters: vec![
            WeightedClusterDefinition {
                name: "api-cluster".to_string(),
                weight: 60,
                typed_per_filter_config: vec![],
            },
            WeightedClusterDefinition {
                name: "shadow".to_string(),
                weight: 40,
                typed_per_filter_config: vec![],
            },
        ],
        total_weight: Some(100),
    };
    payload.virtual_hosts[0].routes[0].typed_per_filter_config.push(ScopedFilterEntry {
        filter: "envoy.filters.http.local_ratelimit".to_string(),
        config: ScopedFilterConfig::LocalRateLimit {
            stat_prefix: "per_route".to_string(),
            max_tokens: 10,
            tokens_per_fill: Some(10),
            fill_interval_ms: 60_000,
            status_code: Some(429),
        },
    });

    let response = update_route(
        &mut repo,
        &mut snapshot,
        "primary-routes",
        "row-2".to_string(),
        payload,
    )
    .expect("update route");
    assert!(response.cluster_targets.contains("api-cluster"));

    let stored = repo.get_by_name("primary-routes").expect("stored route");
    assert_eq!(stored.version, 2);

    let fetched = get_route(&repo, "primary-routes").expect("get updated");
    let rule = &fetched.config.virtual_hosts[0].routes[0];
    assert_eq!(rule.typed_per_filter_config.len(), 1);
    assert_eq!(rule.typed_per_filter_config[0].filter, "envoy.filters.http.local_ratelimit");
    match &rule.typed_per_filter_config[0].config {
        ScopedFilterConfig::LocalRateLimit { max_tokens, tokens_per_fill, .. } => {
            assert_eq!(*max_tokens, 10);
            assert_eq!(*tokens_per_fill, Some(10));
        }
        _ => panic!("expected local rate limit override"),
    }
}

#[test]
fn update_route_rejects_name_mismatch() {
    let mut repo: Repository<RouteStored> = Repository::new();
    let mut snapshot = XdsRouteSnapshot::new();
    create_route(&mut repo, &mut snapshot, "row-1".to_string(), sample_route_definition())
        .expect("create route");
    let payload = sample_route_definition();
    let result = update_route(&mut repo, &mut snapshot, "other", "row-2".to_string(), payload);
    assert!(matches!(result, Err(ApiError::BadRequest(_))));
}

#[test]
fn delete_route_removes_row() {
    let mut repo: Repository<RouteStored> = Repository::new();
    let mut snapshot = XdsRouteSnapshot::new();
    create_route(&mut repo, &mut snapshot, "row-1".to_string(), sample_route_definition())
        .expect("create route");
    let status = delete_route(&mut repo, &mut snapshot, "primary-routes").expect("delete route");
    assert_eq!(status, 204);
    assert!(repo.get_by_name("primary-routes").is_none());
    assert_eq!(snapshot.entries.len(), 0);
}

#[test]
fn delete_protects_default_gateway_route() {
    let mut repo: Repository<RouteStored> = Repository::new();
    let mut snapshot = XdsRouteSnapshot::new();
    assert!(is_default_gateway_route("default-gateway-routes"));
    let result = delete_route(&mut repo, &mut snapshot, "default-gateway-routes");
    assert!(matches!(result, Err(ApiError::Conflict(_))));
}

#[test]
fn template_route_supports_rewrite() {
    let mut repo: Repository<RouteStored> = Repository::new();
    let mut snapshot = XdsRouteSnapshot::new();
    let mut payload = sample_route_definition();
    payload.name = "template-route".to_string();
    payload.virtual_hosts[0].routes[0].route_match.path =
        PathMatchDefinition::Template { template: "/api/v1/users/{user_id}".to_string() };
    payload.virtual_hosts[0].routes[0].action = RouteActionDefinition::Forward {
        cluster: "api-cluster".to_string(),
        timeout_seconds: Some(5),
        prefix_rewrite: None,
        template_rewrite: Some("/users/{user_id}".to_string()),
    };
    let (status, created) =
        create_route(&mut repo, &mut snapshot, "row-1".to_string(), payload).expect("create");
    assert_eq!(status, 201);
    assert_eq!(created.name, "template-route");
    assert!(matches!(
        created.config.virtual_hosts[0].routes[0].route_match.path,
        PathMatchDefinition::Template { .. }
    ));
    let stored = repo.get_by_name("template-route").expect("stored template route");
    assert_eq!(stored.data.path_prefix, "template:/api/v1/users/{user_id}");
}

#[test]
fn template_path_forbids_prefix_rewrite() {
    let mut payload = sample_route_definition();
    payload.virtual_hosts[0].routes[0].route_match.path =
        PathMatchDefinition::Template { template: "/api/{id}".to_string() };
    payload.virtual_hosts[0].routes[0].action = RouteActionDefinition::Forward {
        cluster: "api-cluster".to_string(),
        timeout_seconds: None,
        prefix_rewrite: Some("/internal".to_string()),
        template_rewrite: None,
    };
    assert!(matches!(validate_route_payload(&payload), Err(ApiError::Validation(_))));
}

#[test]
fn template_rewrite_requires_template_match() {
    let mut payload = sample_route_definition();
    payload.virtual_hosts[0].routes[0].action = RouteActionDefinition::Forward {
        cluster: "api-cluster".to_string(),
        timeout_seconds: None,
        prefix_rewrite: None,
        template_rewrite: Some("/users/{id}".to_string()),
    };
    assert!(matches!(validate_route_payload(&payload), Err(ApiError::Validation(_))));
}

#[test]
fn template_path_requires_forward_action() {
    let mut payload = sample_route_definition();
    payload.virtual_hosts[0].routes[0].route_match.path =
        PathMatchDefinition::Template { template: "/api/{id}".to_string() };
    payload.virtual_hosts[0].routes[0].action = RouteActionDefinition::Redirect {
        host_redirect: Some("example.com".to_string()),
        path_redirect: None,
        response_code: Some(301),
    };
    assert!(validate_route_payload(&payload).is_err());
}

#[test]
fn validators_reject_blank_and_zero_weight() {
    assert!(validate_route_match(&prefix_match("   ")).is_err());
    assert!(validate_route_match(&prefix_match("/ok")).is_ok());

    let mut with_header = prefix_match("/ok");
    with_header.headers.push(HeaderMatchDefinition {
        name: " ".to_string(),
        value: None,
        regex: None,
        present: Some(true),
    });
    assert!(validate_route_match(&with_header).is_err());

    let weighted_zero = RouteActionDefinition::Weighted {
        clusters: vec![WeightedClusterDefinition {
            name: "a".to_string(),
            weight: 0,
            typed_per_filter_config: vec![],
        }],
        total_weight: None,
    };
    assert!(validate_route_action(&weighted_zero).is_err());

    let weighted_empty =
        RouteActionDefinition::Weighted { clusters: vec![], total_weight: None };
    assert!(validate_route_action(&weighted_empty).is_err());

    let bad_prefix = RouteActionDefinition::Forward {
        cluster: "c".to_string(),
        timeout_seconds: None,
        prefix_rewrite: Some("internal".to_string()),
        template_rewrite: None,
    };
    assert!(validate_route_action(&bad_prefix).is_err());
}

#[test]
fn conversion_round_trip_preserves_fields() {
    let definition = sample_route_definition();
    let canonical = definition.to_xds_config().expect("to canonical");
    assert_eq!(canonical.name, "primary-routes");
    let back = RouteDefinition::from_xds_config(&canonical);
    assert_eq!(back.name, definition.name);
    assert_eq!(back.virtual_hosts.len(), definition.virtual_hosts.len());
    assert_eq!(back.virtual_hosts[0].name, definition.virtual_hosts[0].name);
    assert_eq!(back.virtual_hosts[0].domains, definition.virtual_hosts[0].domains);
    let orig_rule = &definition.virtual_hosts[0].routes[0];
    let back_rule = &back.virtual_hosts[0].routes[0];
    assert_eq!(back_rule.name, orig_rule.name);
    match (&back_rule.route_match.path, &orig_rule.route_match.path) {
        (
            PathMatchDefinition::Prefix { value: a },
            PathMatchDefinition::Prefix { value: b },
        ) => assert_eq!(a, b),
        _ => panic!("path match changed shape"),
    }
}

#[test]
fn summaries_render_each_match_style() {
    let mut definition = sample_route_definition();
    let (path, cluster) = summarize_route(&definition);
    assert_eq!(path, "/api");
    assert_eq!(cluster, "api-cluster");

    definition.virtual_hosts[0].routes[0].route_match.path =
        PathMatchDefinition::Regex { value: "^/v[0-9]+/.*".to_string() };
    definition.virtual_hosts[0].routes[0].action = RouteActionDefinition::Redirect {
        host_redirect: Some("example.com".to_string()),
        path_redirect: None,
        response_code: None,
    };
    let (path, cluster) = summarize_route(&definition);
    assert_eq!(path, "regex:^/v[0-9]+/.*");
    assert_eq!(cluster, "__redirect__");

    definition.virtual_hosts[0].routes.clear();
    let (path, cluster) = summarize_route(&definition);
    assert_eq!(path, "*");
    assert_eq!(cluster, "unknown");
}

#[test]
fn conversion_round_trip_covers_weighted_and_matches() {
    let definition = RouteDefinition {
        name: "rich-routes".to_string(),
        virtual_hosts: vec![VirtualHostDefinition {
            name: "rich".to_string(),
            domains: vec!["a.example.com".to_string(), "b.example.com".to_string()],
            routes: vec![RouteRuleDefinition {
                name: None,
                route_match: RouteMatchDefinition {
                    path: PathMatchDefinition::Exact { value: "/health".to_string() },
                    headers: vec![HeaderMatchDefinition {
                        name: "x-team".to_string(),
                        value: Some("core".to_string()),
                        regex: None,
                        present: None,
                    }],
                    query_parameters: vec![],
                },
                action: RouteActionDefinition::Weighted {
                    clusters: vec![WeightedClusterDefinition {
                        name: "blue".to_string(),
                        weight: 80,
                        typed_per_filter_config: vec![ScopedFilterEntry {
                            filter: "envoy.filters.http.local_ratelimit".to_string(),
                            config: ScopedFilterConfig::LocalRateLimit {
                                stat_prefix: "wc".to_string(),
                                max_tokens: 5,
                                tokens_per_fill: None,
                                fill_interval_ms: 1000,
                                status_code: None,
                            },
                        }],
                    }],
                    total_weight: Some(80),
                },
                typed_per_filter_config: vec![],
            }],
            typed_per_filter_config: vec![],
        }],
    };
    let canonical = definition.to_xds_config().expect("to canonical");
    let back = RouteDefinition::from_xds_config(&canonical);
    let orig_rule = &definition.virtual_hosts[0].routes[0];
    let back_rule = &back.virtual_hosts[0].routes[0];
    assert_eq!(back_rule.route_match.headers.len(), 1);
    assert_eq!(back_rule.route_match.headers[0].name, "x-team");
    assert_eq!(back_rule.route_match.headers[0].value.as_deref(), Some("core"));
    assert_eq!(back_rule.route_match.query_parameters.len(), 0);
    match (&back_rule.action, &orig_rule.action) {
        (
            RouteActionDefinition::Weighted { clusters: a, total_weight: ta },
            RouteActionDefinition::Weighted { clusters: b, total_weight: tb },
        ) => {
            assert_eq!(ta, tb);
            assert_eq!(a.len(), b.len());
            assert_eq!(a[0].name, b[0].name);
            assert_eq!(a[0].weight, b[0].weight);
            assert_eq!(a[0].typed_per_filter_config.len(), 1);
        }
        _ => panic!("weighted action changed shape"),
    }
}

#[test]
fn weighted_action_without_clusters_has_no_canonical_form() {
    let mut definition = sample_route_definition();
    definition.virtual_hosts[0].routes[0].action =
        RouteActionDefinition::Weighted { clusters: vec![], total_weight: None };
    assert!(matches!(definition.to_xds_config(), Err(ApiError::Validation(_))));
}
