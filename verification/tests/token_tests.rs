//! Token name, scope and update-request validation.

use flowplane::token_validate::{
    validate_scope, validate_token_name, has_all_scopes, requires_authentication,
    CreateTokenRequest, UpdateTokenRequest,
};

#[test]
fn name_validation_allows_valid_patterns() {
    assert!(validate_token_name("admin-token").is_ok());
    assert!(validate_token_name("A1_foo").is_ok());
    assert!(validate_token_name("no").is_err());
}

#[test]
fn scope_validation() {
    assert!(validate_scope("clusters:read").is_ok());
    assert!(validate_scope("route-configs:read").is_ok());
    assert!(validate_scope("route-configs:write").is_ok());
    assert!(validate_scope("services:read").is_ok());
    assert!(validate_scope("services:write").is_ok());
    assert!(validate_scope("bad_scope").is_err());
    assert!(validate_scope("bad-scope-").is_err());
}

#[test]
fn update_validation_checks_optional_fields() {
    let mut request = UpdateTokenRequest {
        name: Some("new-name".to_string()),
        description: None,
        status: Some("revoked".to_string()),
        expires_at: None,
        scopes: Some(vec!["clusters:read".to_string()]),
    };
    assert!(request.validate().is_ok());

    request.name = Some("!bad".to_string());
    assert!(request.validate().is_err());

    request.name = Some("good".to_string());
    request.scopes = Some(vec!["invalid".to_string()]);
    assert!(request.validate().is_err());

    request.scopes = Some(vec!["clusters:read".to_string()]);
    request.status = Some("unknown".to_string());
    assert!(request.validate().is_err());
}

#[test]
fn create_token_request_demands_scopes() {
    let request = CreateTokenRequest {
        name: "ci-token".to_string(),
        description: None,
        expires_at: None,
        scopes: vec![],
        created_by: None,
    };
    assert!(request.validate().is_err());

    let request = CreateTokenRequest {
        name: "ci-token".to_string(),
        description: Some("pipeline".to_string()),
        expires_at: Some("2030-01-01T00:00:00Z".to_string()),
        scopes: vec!["clusters:write".to_string()],
        created_by: Some("ops".to_string()),
    };
    assert!(request.validate().is_ok());
}

#[test]
fn scope_enforcement_requires_every_scope() {
    let required = vec!["apis:write".to_string(), "clusters:write".to_string()];
    let granted_all = vec![
        "clusters:write".to_string(),
        "apis:write".to_string(),
        "tokens:read".to_string(),
    ];
    let granted_some = vec!["apis:write".to_string()];
    assert!(has_all_scopes(&required, &granted_all));
    assert!(!has_all_scopes(&required, &granted_some));
    assert!(has_all_scopes(&vec![], &vec![]));
}

#[test]
fn options_requests_bypass_authentication() {
    assert!(!requires_authentication("OPTIONS"));
    assert!(requires_authentication("GET"));
    assert!(requires_authentication("POST"));
}
