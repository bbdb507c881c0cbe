//! The OpenAPI importer: documents built as structured values, policy
//! extraction from the gateway extensions, and the legacy redirect.

use flowplane::errors::ApiError;
use flowplane::json::{JsonField, JsonVal};
use flowplane::platform_openapi_handlers::{
    extract_flowplane_policies, gateway_redirect_location, import_openapi,
    openapi_to_api_definition,
};

fn obj(pairs: Vec<(&str, JsonVal)>) -> JsonVal {
    let mut fields = Vec::new();
    for (k, v) in pairs {
        fields.push(JsonField { key: k.to_string(), val: v });
    }
    JsonVal::Obj(fields)
}

fn s(text: &str) -> JsonVal {
    JsonVal::Str(text.to_string())
}

fn tagged_api_doc() -> JsonVal {
    let protected_get = obj(vec![
        ("summary", s("Protected endpoint")),
        (
            "x-flowplane-ratelimit",
            obj(vec![("requests", JsonVal::UInt(100)), ("interval", s("1m"))]),
        ),
        (
            "x-flowplane-jwt-auth",
            obj(vec![
                ("required", JsonVal::Bool(true)),
                ("issuer", s("https://auth.example.com")),
            ]),
        ),
        (
            "x-flowplane-cors",
            obj(vec![
                ("origins", JsonVal::Arr(vec![s("https://app.example.com")])),
                ("methods", JsonVal::Arr(vec![s("GET"), s("POST")])),
            ]),
        ),
    ]);
    let public_get = obj(vec![
        ("summary", s("Public endpoint")),
        ("x-flowplane-invalid-filter", obj(vec![("enabled", JsonVal::Bool(true))])),
    ]);
    obj(vec![
        ("openapi", s("3.0.0")),
        ("info", obj(vec![("title", s("Tagged API")), ("version", s("1.0.0"))])),
        (
            "servers",
            JsonVal::Arr(vec![obj(vec![("url", s("https://api.example.com"))])]),
        ),
        (
            "paths",
            obj(vec![
                ("/protected", obj(vec![("get", protected_get)])),
                ("/public", obj(vec![("get", public_get)])),
            ]),
        ),
    ])
}

#[test]
fn test_openapi_import_with_flowplane_tags() {
    let doc = tagged_api_doc();
    let response = import_openapi(&doc, "tagged-api".to_string(), None, None).expect("import");
    assert_eq!(response.name, "tagged-api");
    assert_eq!(response.version, "1.0.0");
    assert_eq!(response.base_path, "/");
    assert_eq!(response.id.len(), 36);

    assert_eq!(response.upstream.service, "tagged-api-backend");
    assert_eq!(response.upstream.endpoints[0].host, "api.example.com");
    assert_eq!(response.upstream.endpoints[0].port, 443);
    assert!(response.upstream.tls);
    assert_eq!(response.upstream.load_balancing, "ROUND_ROBIN");

    assert_eq!(response.routes.len(), 2);
    let policies = response.policies.expect("global policies from the first route");
    let rate_limit = policies.rate_limit.expect("rate limit policy");
    assert_eq!(rate_limit.requests, 100);
    assert_eq!(rate_limit.interval, "1m");
    let auth = policies.authentication.expect("jwt policy");
    assert_eq!(auth.auth_type, "jwt");
    assert!(auth.required);
    let cors = policies.cors.expect("cors policy");
    assert_eq!(cors.origins, vec!["https://app.example.com".to_string()]);
    assert_eq!(cors.methods, vec!["GET".to_string(), "POST".to_string()]);

    let warnings = response.warnings.expect("warnings present");
    assert!(warnings
        .iter()
        .any(|w| w == "Unknown flowplane tag: x-flowplane-invalid-filter"));
}

#[test]
fn test_openapi_import_validation() {
    let not_openapi = obj(vec![("swagger", s("2.0"))]);
    assert!(matches!(
        import_openapi(&not_openapi, "legacy".to_string(), None, None),
        Err(ApiError::BadRequest(_))
    ));
    let wrong_version = obj(vec![("openapi", s("2.0.0"))]);
    assert!(matches!(
        import_openapi(&wrong_version, "legacy".to_string(), None, None),
        Err(ApiError::BadRequest(_))
    ));
}

#[test]
fn test_openapi_import_response_format() {
    let doc = obj(vec![
        ("openapi", s("3.1.0")),
        ("paths", obj(vec![])),
    ]);
    let response = import_openapi(
        &doc,
        "bare-api".to_string(),
        Some("9.9.9".to_string()),
        Some("/custom".to_string()),
    )
    .expect("import");
    assert_eq!(response.version, "9.9.9");
    assert_eq!(response.base_path, "/custom");
    assert_eq!(response.routes.len(), 0);
    assert!(response.policies.is_none());
    assert!(response.warnings.is_none());
    assert_eq!(response.upstream.endpoints[0].host, "backend.example.com");
    assert_eq!(response.upstream.endpoints[0].port, 80);
    assert!(!response.upstream.tls);
}

#[test]
fn conversion_reads_servers_and_methods() {
    let item = obj(vec![
        ("get", obj(vec![("summary", s("list things"))])),
        ("post", obj(vec![("description", s("make a thing"))])),
    ]);
    let doc = obj(vec![
        ("openapi", s("3.0.0")),
        ("info", obj(vec![("version", s("2.5.0"))])),
        (
            "servers",
            JsonVal::Arr(vec![obj(vec![("url", s("http://things.internal:8080/base"))])]),
        ),
        ("paths", obj(vec![("/things", item)])),
    ]);
    let (api, warnings) =
        openapi_to_api_definition(&doc, "things".to_string(), None, None);
    assert_eq!(api.version, "2.5.0");
    assert_eq!(api.base_path, "/base");
    assert_eq!(api.upstream.endpoints[0].host, "things.internal");
    assert_eq!(api.upstream.endpoints[0].port, 8080);
    assert!(!api.upstream.tls);
    assert_eq!(api.routes.len(), 2);
    assert_eq!(api.routes[0].path, "/things");
    assert_eq!(api.routes[0].methods, vec!["GET".to_string()]);
    assert_eq!(api.routes[0].description.as_deref(), Some("list things"));
    assert_eq!(api.routes[1].methods, vec!["POST".to_string()]);
    assert_eq!(api.routes[1].description.as_deref(), Some("make a thing"));
    assert!(warnings.is_empty());
}

#[test]
fn malformed_rate_limit_warns_without_failing() {
    let op = obj(vec![(
        "x-flowplane-ratelimit",
        obj(vec![("requests", s("not-a-number")), ("interval", s("1m"))]),
    )]);
    let (policies, warnings) = extract_flowplane_policies(&op);
    assert!(policies.is_none());
    assert_eq!(warnings, vec!["Invalid x-flowplane-ratelimit format".to_string()]);

    // a missing or ill-typed interval is just as malformed as bad requests
    let without_interval = obj(vec![(
        "x-flowplane-ratelimit",
        obj(vec![("requests", JsonVal::UInt(5))]),
    )]);
    let (policies, warnings) = extract_flowplane_policies(&without_interval);
    assert!(policies.is_none());
    assert_eq!(warnings, vec!["Invalid x-flowplane-ratelimit format".to_string()]);

    let bad_interval = obj(vec![(
        "x-flowplane-ratelimit",
        obj(vec![("requests", JsonVal::UInt(5)), ("interval", JsonVal::UInt(60))]),
    )]);
    let (policies, warnings) = extract_flowplane_policies(&bad_interval);
    assert!(policies.is_none());
    assert_eq!(warnings, vec!["Invalid x-flowplane-ratelimit format".to_string()]);
}

#[test]
fn cors_extraction_applies_defaults() {
    let op = obj(vec![("x-flowplane-cors", obj(vec![]))]);
    let (policies, warnings) = extract_flowplane_policies(&op);
    let cors = policies.expect("policies").cors.expect("cors");
    assert_eq!(cors.origins, vec!["*".to_string()]);
    assert_eq!(cors.methods, vec!["GET".to_string(), "POST".to_string()]);
    assert_eq!(
        cors.headers,
        vec!["Content-Type".to_string(), "Authorization".to_string()]
    );
    assert!(!cors.allow_credentials);
    assert!(cors.max_age.is_none());
    assert!(warnings.is_empty());
}

#[test]
fn test_redirect_from_old_gateway_endpoint() {
    let (status, location) = gateway_redirect_location("legacy");
    assert_eq!(status, 308);
    assert_eq!(location, "/api/v1/platform/import/openapi?name=legacy");
}
