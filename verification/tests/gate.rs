use todo_auth::gate::{
    authorize_header, authorize_header_at, rejection_status, resolve_principal, GateRejection,
    PrincipalLookup,
};
use todo_auth::user::access_token::encode;
use todo_auth::user::id::Id;
use todo_auth::user::User;

const SECRET: &str = "gate-secret";

fn bearer(token: &str) -> String {
    format!("Bearer {}", token)
}

#[test]
fn gate_missing_header_is_authentication_failed() {
    let r = authorize_header(None, SECRET);
    assert!(matches!(r, Err(GateRejection::AuthenticationFailed)));
    assert_eq!(rejection_status(&GateRejection::AuthenticationFailed), 401);
}

#[test]
fn gate_malformed_header_is_authentication_failed() {
    for header in ["", "Bearer", "Token abc", "bearer abc", "Bearer"] {
        let r = authorize_header(Some(header), SECRET);
        assert!(matches!(r, Err(GateRejection::AuthenticationFailed)));
    }
}

#[test]
fn gate_expired_token_is_token_expired() {
    let sub = Id::new();
    let token = encode(&sub, Some(1_000), SECRET).unwrap();
    let header = bearer(&token);
    let r = authorize_header(Some(header.as_str()), SECRET);
    assert!(matches!(r, Err(GateRejection::TokenExpired)));
    assert_eq!(rejection_status(&GateRejection::TokenExpired), 401);
}

#[test]
fn gate_tampered_token_is_authentication_failed() {
    let sub = Id::new();
    let token = encode(&sub, None, SECRET).unwrap();
    let header = bearer(&token);
    let r = authorize_header(Some(header.as_str()), "other-secret");
    assert!(matches!(r, Err(GateRejection::AuthenticationFailed)));
}

#[test]
fn gate_valid_token_yields_the_subject() {
    let sub = Id::new();
    let token = encode(&sub, None, SECRET).unwrap();
    let header = bearer(&token);
    let id = authorize_header(Some(header.as_str()), SECRET).unwrap();
    assert_eq!(id.value(), sub.value());
}

#[test]
fn gate_unknown_subject_is_authentication_failed() {
    let r = resolve_principal(PrincipalLookup::NotFound);
    assert!(matches!(r, Err(GateRejection::AuthenticationFailed)));
}

#[test]
fn gate_store_failure_is_internal_error() {
    let r = resolve_principal(PrincipalLookup::Unavailable);
    assert!(matches!(r, Err(GateRejection::InternalError)));
    assert_eq!(rejection_status(&GateRejection::InternalError), 500);
}

#[test]
fn gate_known_subject_is_forwarded_with_the_principal() {
    let sub = Id::new();
    let token = encode(&sub, None, SECRET).unwrap();
    let header = bearer(&token);
    let id = authorize_header(Some(header.as_str()), SECRET).unwrap();

    let stored = User::restore(id.value().into(), "user@example.com".into());
    let principal = resolve_principal(PrincipalLookup::Found(stored)).unwrap();
    assert_eq!(principal.id().value(), sub.value());
    assert_eq!(principal.email().value(), "user@example.com");
}

#[test]
fn gate_decides_against_the_given_clock() {
    let sub = Id::new();
    let token = encode(&sub, Some(5_000), SECRET).unwrap();
    let header = bearer(&token);

    let id = authorize_header_at(Some(header.as_str()), SECRET, 4_999).unwrap();
    assert_eq!(id.value(), sub.value());

    // the token is still honored at the instant of its expiry...
    assert!(authorize_header_at(Some(header.as_str()), SECRET, 5_000).is_ok());

    // ...and rejected as expired strictly past it
    assert!(matches!(
        authorize_header_at(Some(header.as_str()), SECRET, 5_001),
        Err(GateRejection::TokenExpired)
    ));
    assert!(matches!(
        authorize_header_at(None, SECRET, 4_999),
        Err(GateRejection::AuthenticationFailed)
    ));
}
