use http::StatusCode;
use sweech::applet::{mount_prefix, AppletConfig};
use sweech::auth::{AuthRequirement, UserClaims};
use sweech::context::{headers_from_pairs, RequestInfo, StringMap};
use sweech::error::AppletError;
use sweech::handler::HttpMethod;
use sweech::response::AppletResponse;

#[test]
fn default_auth_is_required() {
    assert_eq!(AuthRequirement::default(), AuthRequirement::Required);
}

#[test]
fn has_role_works() {
    let claims = UserClaims {
        user_id: "user-123".to_string(),
        tenant_id: Some("tenant-abc".to_string()),
        roles: vec!["admin".to_string(), "billing:active".to_string()],
        raw: serde_json::Value::Null,
    };

    assert!(claims.has_role("admin"));
    assert!(claims.has_role("billing:active"));
    assert!(!claims.has_role("superuser"));
}

#[test]
fn error_converts_to_correct_status() {
    let err = AppletError::not_found("ITEM_NOT_FOUND", "Item does not exist");
    let resp = err.into_response::<()>();
    assert_eq!(resp.status, StatusCode::NOT_FOUND.as_u16());
    assert_eq!(resp.error_code.as_deref(), Some("ITEM_NOT_FOUND"));
}

#[test]
fn forbidden_error_converts() {
    let err = AppletError::forbidden("INSUFFICIENT_ROLE", "Admin access required");
    let resp = err.into_response::<()>();
    assert_eq!(resp.status, StatusCode::FORBIDDEN.as_u16());
}

#[test]
fn every_error_kind_maps_to_its_status() {
    let cases = [
        (AppletError::bad_request("C", "m"), StatusCode::BAD_REQUEST),
        (AppletError::unauthorized("C", "m"), StatusCode::UNAUTHORIZED),
        (AppletError::forbidden("C", "m"), StatusCode::FORBIDDEN),
        (AppletError::not_found("C", "m"), StatusCode::NOT_FOUND),
        (AppletError::Conflict { code: "C".to_string(), message: "m".to_string() }, StatusCode::CONFLICT),
        (AppletError::internal("C", "m"), StatusCode::INTERNAL_SERVER_ERROR),
    ];
    for (err, status) in cases {
        let resp = err.into_response::<u8>();
        assert_eq!(resp.status, status.as_u16());
        assert!(resp.body.is_none());
        assert_eq!(resp.error_code.as_deref(), Some("C"));
        assert_eq!(resp.error_message.as_deref(), Some("m"));
    }
}

#[test]
fn http_method_parse() {
    assert_eq!(HttpMethod::from_str("GET"), Some(HttpMethod::Get));
    assert_eq!(HttpMethod::from_str("post"), Some(HttpMethod::Post));
    assert_eq!(HttpMethod::from_str("PATCH"), Some(HttpMethod::Patch));
    assert_eq!(HttpMethod::from_str("bad"), None);
}

#[test]
fn http_method_as_str() {
    assert_eq!(HttpMethod::Delete.as_str(), "DELETE");
    assert_eq!(HttpMethod::Put.as_str(), "PUT");
}

#[test]
fn http_method_names_parse_back() {
    for m in [HttpMethod::Get, HttpMethod::Post, HttpMethod::Put, HttpMethod::Patch, HttpMethod::Delete] {
        assert_eq!(HttpMethod::from_str(m.as_str()), Some(m));
    }
    assert_eq!(HttpMethod::from_str("dElEtE"), Some(HttpMethod::Delete));
    assert_eq!(HttpMethod::from_str(""), None);
}

#[test]
fn ok_response_has_correct_status() {
    let resp = AppletResponse::ok(42u32);
    assert_eq!(resp.status, StatusCode::OK.as_u16());
    assert!(resp.body.is_some());
    assert!(resp.error_code.is_none());
}

#[test]
fn not_found_has_no_body() {
    let resp = AppletResponse::<()>::not_found("USER_NOT_FOUND", "User does not exist");
    assert_eq!(resp.status, StatusCode::NOT_FOUND.as_u16());
    assert!(resp.body.is_none());
    assert_eq!(resp.error_code.as_deref(), Some("USER_NOT_FOUND"));
}

#[test]
fn no_content_is_204() {
    let resp = AppletResponse::no_content();
    assert_eq!(resp.status, StatusCode::NO_CONTENT.as_u16());
    assert!(resp.body.is_none());
}

#[test]
fn created_and_conflict_responses() {
    let resp = AppletResponse::created("x".to_string());
    assert_eq!(resp.status, 201);
    assert_eq!(resp.body.as_deref(), Some("x"));
    let resp = AppletResponse::<()>::conflict("DUP", "Already there");
    assert_eq!(resp.status, 409);
    assert_eq!(resp.error_message.as_deref(), Some("Already there"));
}

#[test]
fn applet_config_builder() {
    let config = AppletConfig::new("scheduler")
        .stateful(true)
        .default_auth(AuthRequirement::Public);

    assert_eq!(config.name, "scheduler");
    assert!(config.stateful);
    assert_eq!(config.default_auth, AuthRequirement::Public);
}

#[test]
fn applet_config_defaults_and_guards() {
    let config = AppletConfig::new("billing");
    assert!(!config.stateful);
    assert_eq!(config.default_auth, AuthRequirement::Required);
    assert!(config.default_guards.is_empty());
    let config = config.default_guards(vec!["billing:active".to_string()]);
    assert_eq!(config.default_guards, vec!["billing:active".to_string()]);
}

#[test]
fn mount_prefix_adds_leading_slash() {
    assert_eq!(mount_prefix("products"), "/products");
    assert_eq!(mount_prefix(""), "/");
}

#[test]
fn string_map_read_after_write() {
    let mut m = StringMap::new();
    assert_eq!(m.get("a"), None);
    m.insert("a".to_string(), "1".to_string());
    m.insert("b".to_string(), "2".to_string());
    m.insert("a".to_string(), "3".to_string());
    assert_eq!(m.get("a"), Some("3"));
    assert_eq!(m.get("b"), Some("2"));
    assert_eq!(m.get("c"), None);
}

#[test]
fn request_info_lookups() {
    let mut params = StringMap::new();
    params.insert("productId".to_string(), "abc-123".to_string());
    let mut query = StringMap::new();
    query.insert("page".to_string(), "2".to_string());
    let mut headers = StringMap::new();
    headers.insert("content-type".to_string(), "application/json".to_string());
    let info = RequestInfo {
        method: "GET".to_string(),
        path: "/products/abc-123".to_string(),
        params,
        query,
        headers,
        body: vec![],
    };
    assert_eq!(info.param("productId"), Some("abc-123"));
    assert_eq!(info.param("missing"), None);
    assert_eq!(info.query("page"), Some("2"));
    assert_eq!(info.header("Content-Type"), Some("application/json"));
    assert_eq!(info.header("X-Other"), None);
}

#[test]
fn headers_are_keyed_by_lower_case_name() {
    let pairs = vec![
        ("Content-Type".to_string(), Some("text/plain".to_string())),
        ("X-Binary".to_string(), None),
        ("CONTENT-TYPE".to_string(), Some("application/json".to_string())),
    ];
    let info = RequestInfo {
        method: "GET".to_string(),
        path: "/".to_string(),
        params: StringMap::new(),
        query: StringMap::new(),
        headers: headers_from_pairs(&pairs),
        body: vec![],
    };
    assert_eq!(info.header("content-type"), Some("application/json"));
    assert_eq!(info.header("Content-Type"), info.header("CONTENT-TYPE"));
    assert_eq!(info.header("x-binary"), None);
}

#[test]
fn method_names_in_small_letters_parse() {
    for m in [HttpMethod::Get, HttpMethod::Post, HttpMethod::Put, HttpMethod::Patch, HttpMethod::Delete] {
        assert_eq!(HttpMethod::from_str(&m.as_str().to_lowercase()), Some(m));
    }
    assert_eq!(HttpMethod::from_str("pOsT"), Some(HttpMethod::Post));
}
