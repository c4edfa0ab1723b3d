use sweech::auth::{AuthRequirement, UserClaims};
use sweech::error::AppletError;
use sweech::pipeline::{
    enforce_auth, find_guard, render_response, request_body_or_empty_object, Action, Event, Phase,
    RoutePipeline, WireBody,
};
use sweech::query::{parse_query, split_pair};
use sweech::response::AppletResponse;

fn claims(id: &str, roles: &[&str]) -> UserClaims {
    UserClaims {
        user_id: id.to_string(),
        tenant_id: None,
        roles: roles.iter().map(|r| r.to_string()).collect(),
        raw: serde_json::Value::Null,
    }
}

fn names(list: &[&str]) -> Vec<String> {
    list.iter().map(|s| s.to_string()).collect()
}

#[test]
fn required_auth_without_identity_is_401() {
    match enforce_auth(AuthRequirement::Required, None) {
        Err(resp) => {
            assert_eq!(resp.status, 401);
            assert_eq!(resp.error_code.as_deref(), Some("AUTH_REQUIRED"));
            assert_eq!(resp.error_message.as_deref(), Some("Authentication required"));
        }
        Ok(_) => panic!("expected a refusal"),
    }
}

#[test]
fn required_auth_passes_identity_on() {
    let r = enforce_auth(AuthRequirement::Required, Some(claims("user-456", &[])));
    assert_eq!(r.unwrap().unwrap().user_id, "user-456");
}

#[test]
fn public_auth_drops_identity_and_optional_keeps_it() {
    assert!(enforce_auth(AuthRequirement::Public, Some(claims("u", &[]))).unwrap().is_none());
    assert!(enforce_auth(AuthRequirement::Public, None).unwrap().is_none());
    assert_eq!(enforce_auth(AuthRequirement::Optional, Some(claims("u", &[]))).unwrap().unwrap().user_id, "u");
    assert!(enforce_auth(AuthRequirement::Optional, None).unwrap().is_none());
}

#[test]
fn query_string_is_parsed() {
    let q = parse_query("page=2&limit=20&flag&=skipped&page=3&eq=a=b");
    assert_eq!(q.get("page"), Some("3"));
    assert_eq!(q.get("limit"), Some("20"));
    assert_eq!(q.get("flag"), Some(""));
    assert_eq!(q.get(""), None);
    assert_eq!(q.get("eq"), Some("a=b"));
    assert_eq!(q.get("missing"), None);
}

#[test]
fn empty_query_has_no_parameters() {
    let q = parse_query("");
    assert_eq!(q.get(""), None);
    let q = parse_query("&&");
    assert_eq!(q.get(""), None);
}

#[test]
fn pair_splits_at_first_equals() {
    assert_eq!(split_pair("a=b=c"), ("a".to_string(), "b=c".to_string()));
    assert_eq!(split_pair("key"), ("key".to_string(), String::new()));
}

#[test]
fn empty_body_decodes_as_empty_object() {
    assert_eq!(request_body_or_empty_object(&vec![]), b"{}".to_vec());
    assert_eq!(request_body_or_empty_object(&b"[1]".to_vec()), b"[1]".to_vec());
}

#[test]
fn render_success_and_errors() {
    let (status, body) = render_response(AppletResponse::ok(7u8));
    assert_eq!(status, 200);
    assert!(matches!(body, WireBody::Data(7)));
    let (status, body) = render_response(AppletResponse::no_content());
    assert_eq!(status, 204);
    assert!(matches!(body, WireBody::Empty));
    let (status, body) = render_response(AppletResponse::<()>::forbidden("NOPE", "No"));
    assert_eq!(status, 403);
    match body {
        WireBody::Error { code, message } => {
            assert_eq!(code.as_deref(), Some("NOPE"));
            assert_eq!(message.as_deref(), Some("No"));
        }
        _ => panic!("expected an error body"),
    }
    let odd = AppletResponse::<()> { status: 42, body: None, error_code: None, error_message: None };
    assert_eq!(render_response(odd).0, 500);
}

#[test]
fn find_guard_takes_first_match() {
    let reg = names(&["a", "role:admin", "role:admin"]);
    assert_eq!(find_guard(&reg, "role:admin"), Some(1));
    assert_eq!(find_guard(&reg, "missing"), None);
}

fn respond_status(a: Action) -> u16 {
    match a {
        Action::Respond(r) => r.status,
        other => panic!("expected a response, got {:?}", other),
    }
}

#[test]
fn pipeline_refuses_missing_identity() {
    let mut p = RoutePipeline::new(AuthRequirement::Required, vec![], vec![]);
    assert_eq!(respond_status(p.step(Event::Arrived(None))), 401);
    assert_eq!(p.phase, Phase::Finished);
    assert!(matches!(p.step(Event::HandlerReturned), Action::Idle));
}

#[test]
fn pipeline_runs_guards_in_order_then_handler() {
    let mut p = RoutePipeline::new(
        AuthRequirement::Required,
        names(&["billing:active", "role:admin"]),
        names(&["role:admin", "billing:active"]),
    );
    match p.step(Event::Arrived(Some(claims("user-999", &["admin"])))) {
        Action::ReadBody(Some(u)) => assert_eq!(u.user_id, "user-999"),
        other => panic!("unexpected {:?}", other),
    }
    match p.step(Event::BodyRead(Some(vec![]))) {
        Action::Decode(bytes) => assert_eq!(bytes, b"{}".to_vec()),
        other => panic!("unexpected {:?}", other),
    }
    assert!(matches!(p.step(Event::Decoded(Ok(()))), Action::CheckGuard(1)));
    assert!(matches!(p.step(Event::GuardChecked(Ok(()))), Action::CheckGuard(0)));
    assert!(matches!(p.step(Event::GuardChecked(Ok(()))), Action::CallHandler));
    assert_eq!(p.phase, Phase::Handler);
    assert!(matches!(p.step(Event::HandlerReturned), Action::Idle));
    assert_eq!(p.phase, Phase::Finished);
}

#[test]
fn pipeline_guard_failure_is_answered() {
    let mut p = RoutePipeline::new(AuthRequirement::Required, names(&["role:admin"]), names(&["role:admin"]));
    p.step(Event::Arrived(Some(claims("user-123", &["billing:active"]))));
    p.step(Event::BodyRead(Some(vec![])));
    assert!(matches!(p.step(Event::Decoded(Ok(()))), Action::CheckGuard(0)));
    let err = AppletError::forbidden("INSUFFICIENT_ROLE", "Admin role required");
    assert_eq!(respond_status(p.step(Event::GuardChecked(Err(err)))), 403);
    assert_eq!(p.phase, Phase::Finished);
}

#[test]
fn pipeline_unregistered_guard_is_500() {
    let mut p = RoutePipeline::new(AuthRequirement::Public, names(&["ghost"]), names(&["role:admin"]));
    assert!(matches!(p.step(Event::Arrived(Some(claims("u", &[])))), Action::ReadBody(None)));
    p.step(Event::BodyRead(Some(b"{}".to_vec())));
    match p.step(Event::Decoded(Ok(()))) {
        Action::Respond(r) => {
            assert_eq!(r.status, 500);
            assert_eq!(r.error_code.as_deref(), Some("GUARD_NOT_REGISTERED"));
            assert_eq!(
                r.error_message.as_deref(),
                Some("Guard 'ghost' declared on handler but not registered")
            );
        }
        other => panic!("unexpected {:?}", other),
    }
}

#[test]
fn pipeline_body_errors() {
    let mut p = RoutePipeline::new(AuthRequirement::Optional, vec![], vec![]);
    p.step(Event::Arrived(None));
    assert_eq!(respond_status(p.step(Event::BodyRead(None))), 400);

    let mut p = RoutePipeline::new(AuthRequirement::Optional, vec![], vec![]);
    p.step(Event::Arrived(None));
    p.step(Event::BodyRead(Some(b"x".to_vec())));
    match p.step(Event::Decoded(Err("expected value".to_string()))) {
        Action::Respond(r) => {
            assert_eq!(r.status, 400);
            assert_eq!(r.error_code.as_deref(), Some("INVALID_REQUEST_BODY"));
            assert_eq!(r.error_message.as_deref(), Some("Failed to parse request body: expected value"));
        }
        other => panic!("unexpected {:?}", other),
    }
}

#[test]
fn pipeline_without_guards_calls_handler_after_decode() {
    let mut p = RoutePipeline::new(AuthRequirement::Public, vec![], vec![]);
    p.step(Event::Arrived(None));
    p.step(Event::BodyRead(Some(vec![])));
    assert!(matches!(p.step(Event::Decoded(Ok(()))), Action::CallHandler));
    // events out of turn change nothing
    assert!(matches!(p.step(Event::BodyRead(None)), Action::Idle));
    assert_eq!(p.phase, Phase::Handler);
}
