//! The versioned repository: monotonic versions, unique names, deletion of
//! whole histories, and the cluster surface built on it.

use flowplane::cluster_handlers::{create_cluster, get_cluster, list_clusters, update_cluster};
use flowplane::cluster_model::{CreateClusterBody, EndpointRequest};
use flowplane::errors::ApiError;
use flowplane::repository::Repository;
use flowplane::route_handlers::ListRoutesQuery;
use flowplane::text::{dec_string_of, hex_string_of, join_all, parse_u16_or, rsplit_colon};
use flowplane::xds_state::{ClusterStored, XdsClusterSnapshot};

fn cluster_body(name: &str, host: &str, port: u16) -> CreateClusterBody {
    CreateClusterBody {
        name: name.to_string(),
        service_name: None,
        endpoints: vec![EndpointRequest { host: host.to_string(), port }],
        connect_timeout_seconds: None,
        use_tls: None,
        tls_server_name: None,
        dns_lookup_family: None,
        lb_policy: None,
        health_checks: vec![],
        circuit_breakers: None,
        outlier_detection: None,
    }
}

#[test]
fn cluster_create_and_get_round_trip() {
    let mut repo: Repository<ClusterStored> = Repository::new();
    let mut snapshot = XdsClusterSnapshot::new();
    let (status, created) = create_cluster(
        &mut repo,
        &mut snapshot,
        "row-1".to_string(),
        cluster_body("api-cluster", "127.0.0.1", 8080),
    )
    .expect("create cluster");
    assert_eq!(status, 201);
    assert_eq!(created.name, "api-cluster");

    let fetched = get_cluster(&repo, "api-cluster").expect("get cluster");
    assert_eq!(fetched.config.endpoints.len(), 1);
    let stored = repo.get_by_name("api-cluster").expect("stored row");
    assert_eq!(stored.version, 1);
}

#[test]
fn versions_increment_one_by_one() {
    let mut repo: Repository<ClusterStored> = Repository::new();
    let mut snapshot = XdsClusterSnapshot::new();
    create_cluster(
        &mut repo,
        &mut snapshot,
        "row-1".to_string(),
        cluster_body("api-cluster", "127.0.0.1", 8080),
    )
    .expect("create");
    update_cluster(
        &mut repo,
        &mut snapshot,
        "api-cluster",
        "row-2".to_string(),
        cluster_body("api-cluster", "127.0.0.1", 8081),
    )
    .expect("first update");
    update_cluster(
        &mut repo,
        &mut snapshot,
        "api-cluster",
        "row-3".to_string(),
        cluster_body("api-cluster", "127.0.0.1", 8082),
    )
    .expect("second update");
    let latest = repo.get_by_name("api-cluster").expect("latest row");
    assert_eq!(latest.version, 3);
    assert_eq!(snapshot.entries.len(), 1);
    assert_eq!(snapshot.entries[0].version, 3);
}

#[test]
fn duplicate_names_conflict() {
    let mut repo: Repository<ClusterStored> = Repository::new();
    let mut snapshot = XdsClusterSnapshot::new();
    create_cluster(
        &mut repo,
        &mut snapshot,
        "row-1".to_string(),
        cluster_body("api-cluster", "127.0.0.1", 8080),
    )
    .expect("first create");
    let second = create_cluster(
        &mut repo,
        &mut snapshot,
        "row-2".to_string(),
        cluster_body("api-cluster", "127.0.0.1", 9090),
    );
    assert!(matches!(second, Err(ApiError::Conflict(_))));
    let latest = repo.get_by_name("api-cluster").expect("row still there");
    assert_eq!(latest.version, 1);
}

#[test]
fn validation_rejects_bad_cluster_requests() {
    let mut repo: Repository<ClusterStored> = Repository::new();
    let mut snapshot = XdsClusterSnapshot::new();
    let no_endpoints = CreateClusterBody { endpoints: vec![], ..cluster_body("c", "h", 1) };
    assert!(matches!(
        create_cluster(&mut repo, &mut snapshot, "row-1".to_string(), no_endpoints),
        Err(ApiError::Validation(_))
    ));
    let bad_name = cluster_body("no spaces allowed", "h", 1);
    assert!(matches!(
        create_cluster(&mut repo, &mut snapshot, "row-1".to_string(), bad_name),
        Err(ApiError::Validation(_))
    ));
    let port_zero = cluster_body("ok-name", "h", 0);
    assert!(matches!(
        create_cluster(&mut repo, &mut snapshot, "row-1".to_string(), port_zero),
        Err(ApiError::Validation(_))
    ));
    let bad_policy =
        CreateClusterBody { lb_policy: Some("FANCY".to_string()), ..cluster_body("ok", "h", 1) };
    assert!(matches!(
        create_cluster(&mut repo, &mut snapshot, "row-1".to_string(), bad_policy),
        Err(ApiError::Validation(_))
    ));
    let bad_dns = CreateClusterBody {
        dns_lookup_family: Some("V5".to_string()),
        ..cluster_body("ok", "h", 1)
    };
    assert!(matches!(
        create_cluster(&mut repo, &mut snapshot, "row-1".to_string(), bad_dns),
        Err(ApiError::Validation(_))
    ));
    let good_dns = CreateClusterBody {
        dns_lookup_family: Some("AUTO".to_string()),
        ..cluster_body("ok", "h", 1)
    };
    assert!(create_cluster(&mut repo, &mut snapshot, "row-1".to_string(), good_dns).is_ok());
}

#[test]
fn list_windows_latest_rows() {
    let mut repo: Repository<ClusterStored> = Repository::new();
    let mut snapshot = XdsClusterSnapshot::new();
    for (i, name) in ["alpha", "beta", "gamma"].iter().enumerate() {
        create_cluster(
            &mut repo,
            &mut snapshot,
            format!("row-{}", i),
            cluster_body(name, "h", 80),
        )
        .expect("create");
    }
    let all = list_clusters(&repo, &ListRoutesQuery { limit: None, offset: None });
    assert_eq!(all.len(), 3);
    let one = list_clusters(&repo, &ListRoutesQuery { limit: Some(1), offset: Some(1) });
    assert_eq!(one.len(), 1);
    assert_eq!(one[0].name, "beta");
}

#[test]
fn error_kinds_map_to_their_status_codes() {
    assert_eq!(ApiError::Validation("v".to_string()).status_code(), 400);
    assert_eq!(ApiError::BadRequest("b".to_string()).status_code(), 400);
    assert_eq!(ApiError::Unauthorized("u".to_string()).status_code(), 401);
    assert_eq!(ApiError::Forbidden("f".to_string()).status_code(), 403);
    assert_eq!(ApiError::NotFound("n".to_string()).status_code(), 404);
    assert_eq!(ApiError::Conflict("c".to_string()).status_code(), 409);
    assert_eq!(ApiError::ServiceUnavailable("s".to_string()).status_code(), 503);
    assert_eq!(ApiError::Internal("i".to_string()).status_code(), 500);
}

#[test]
fn text_helpers_render_and_parse() {
    assert_eq!(dec_string_of(0), "0");
    assert_eq!(dec_string_of(1234), "1234");
    assert_eq!(hex_string_of(255), "ff");
    assert_eq!(hex_string_of(0), "0");
    let parts = vec!["GET".to_string(), "POST".to_string(), "PUT".to_string()];
    assert_eq!(join_all(&parts, ", "), "GET, POST, PUT");
    assert_eq!(parse_u16_or("8080", 80), 8080);
    assert_eq!(parse_u16_or("99999", 80), 80);
    assert_eq!(parse_u16_or("abc", 80), 80);
    assert_eq!(parse_u16_or("", 80), 80);
    let (host, port) = rsplit_colon("10.0.0.1:9000").expect("split");
    assert_eq!(host, "10.0.0.1");
    assert_eq!(port, "9000");
    assert!(rsplit_colon("no-colon").is_none());
}

#[test]
fn delete_removes_every_version() {
    let mut repo: Repository<ClusterStored> = Repository::new();
    let mut snapshot = XdsClusterSnapshot::new();
    create_cluster(
        &mut repo,
        &mut snapshot,
        "row-1".to_string(),
        cluster_body("api-cluster", "127.0.0.1", 8080),
    )
    .expect("create");
    update_cluster(
        &mut repo,
        &mut snapshot,
        "api-cluster",
        "row-2".to_string(),
        cluster_body("api-cluster", "127.0.0.1", 8081),
    )
    .expect("update");
    flowplane::cluster_handlers::delete_cluster(&mut repo, &mut snapshot, "api-cluster")
        .expect("delete");
    assert!(repo.get_by_name("api-cluster").is_none());
    // the whole history is gone: a new create starts at version 1 again
    create_cluster(
        &mut repo,
        &mut snapshot,
        "row-3".to_string(),
        cluster_body("api-cluster", "127.0.0.1", 8082),
    )
    .expect("recreate");
    assert_eq!(repo.get_by_name("api-cluster").expect("row").version, 1);
}

#[test]
fn parsing_respects_the_port_ceiling() {
    assert_eq!(parse_u16_or("65535", 1), 65535);
    assert_eq!(parse_u16_or("65536", 1), 1);
    assert_eq!(parse_u16_or("0", 1), 0);
}
