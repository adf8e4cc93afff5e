use todo_auth::user::access_token::{decode, decode_at, encode, DecodeError, ACCESS_TOKEN_TTL_SECS};
use todo_auth::user::id::Id;

#[test]
fn test_encode_and_decode_ok() {
    let sub = Id::new();
    let secret = "secret";

    let token = encode(&sub, None, secret).unwrap();

    assert!(!token.is_empty());

    let claims = decode(&token, secret).unwrap();
    assert_eq!(claims.sub(), sub.value());
    // token must be valid for 12 hours
    let ttl = ACCESS_TOKEN_TTL_SECS;
    let now = chrono::Utc::now().timestamp() as u64;
    // the lower bound allows for the time elapsed since the token was issued
    assert!(claims.exp() > now - 60 + ttl && claims.exp() <= now + ttl);
}

#[test]
fn test_decode_err_expired() {
    let sub = Id::new();
    let secret = "secret";
    let token = encode(&sub, Some(1_000), secret).unwrap();

    let claims = decode(&token, secret);

    assert_eq!(claims.unwrap_err(), DecodeError::Expired);
}

#[test]
fn test_decode_err_token_tampered() {
    let sub = Id::new();
    let secret = "secret";
    let token = encode(&sub, None, secret).unwrap();

    let mut parts = token.split('.').collect::<Vec<_>>();
    parts[1] = "tampered";
    let token = parts.join(".");

    let claims = decode(&token, secret);

    assert_eq!(claims.unwrap_err(), DecodeError::Tempered);
}

#[test]
fn test_decode_err_wrong_secret() {
    let sub = Id::new();
    let secret = "secret";
    let token = encode(&sub, None, secret).unwrap();

    let claims = decode(&token, "wrong_secret");

    assert_eq!(claims.unwrap_err(), DecodeError::Tempered);
}

#[test]
fn decode_expires_once_past_expiry() {
    let sub = Id::new();
    let secret = "secret";
    let now = chrono::Utc::now().timestamp() as u64;

    // one second of remaining validity decodes...
    let token = encode(&sub, Some(now + 2), secret).unwrap();
    assert!(decode(&token, secret).is_ok());

    // ...then waiting past the expiry turns the same token into Expired
    while (chrono::Utc::now().timestamp() as u64) <= now + 2 {}
    assert_eq!(decode(&token, secret).unwrap_err(), DecodeError::Expired);
}

#[test]
fn decode_rejects_malformed_tokens_as_tampered() {
    let secret = "secret";
    for garbage in [
        "",
        "....",
        "no dots here",
        "a.b",
        "a.b.c",
        "!!.!!.!!",
    ] {
        assert_eq!(decode(garbage, secret).unwrap_err(), DecodeError::Tempered);
    }
}

#[test]
fn decode_mutated_header_or_signature_is_tampered() {
    let sub = Id::new();
    let secret = "secret";
    let token = encode(&sub, None, secret).unwrap();

    let mut parts = token.split('.').collect::<Vec<_>>();
    let orig = parts.clone();
    parts[0] = "eyJhbGciOiJub25lIn0";
    assert_eq!(
        decode(&parts.join("."), secret).unwrap_err(),
        DecodeError::Tempered
    );
    let mut parts = orig;
    parts[2] = "AAAAAAAAAAAAAAAAAAAAAAAAAAAAAAAAAAAAAAAAAAA";
    assert_eq!(
        decode(&parts.join("."), secret).unwrap_err(),
        DecodeError::Tempered
    );
}

#[test]
fn encode_with_explicit_expiry_is_deterministic() {
    let sub = Id::new();
    let secret = "secret";
    let a = encode(&sub, Some(4_000_000_000), secret).unwrap();
    let b = encode(&sub, Some(4_000_000_000), secret).unwrap();
    assert_eq!(a, b);
    let c = encode(&sub, Some(4_000_000_001), secret).unwrap();
    assert_ne!(a, c);
    let claims = decode(&a, secret).unwrap();
    assert_eq!(claims.exp(), 4_000_000_000);
    assert_eq!(claims.sub(), sub.value());
}

#[test]
fn token_shape_is_three_base64url_parts() {
    let sub = Id::new();
    let token = encode(&sub, Some(4_000_000_000), "secret").unwrap();
    let parts: Vec<&str> = token.split('.').collect();
    assert_eq!(parts.len(), 3);
    for part in parts {
        assert!(!part.is_empty());
        assert!(part
            .chars()
            .all(|c| c.is_ascii_alphanumeric() || c == '-' || c == '_'));
    }
}

#[test]
fn decode_at_classifies_against_the_given_clock() {
    let sub = Id::new();
    let secret = "secret";
    let token = encode(&sub, Some(5_000), secret).unwrap();

    // up to and including the expiry instant the claims come back
    let claims = decode_at(&token, secret, 4_999).unwrap();
    assert_eq!(claims.sub(), sub.value());
    assert_eq!(claims.exp(), 5_000);
    assert!(decode_at(&token, secret, 5_000).is_ok());

    // strictly past the expiry the token is expired, not tampered
    assert_eq!(decode_at(&token, secret, 5_001).unwrap_err(), DecodeError::Expired);
    assert_eq!(decode_at(&token, secret, 9_999).unwrap_err(), DecodeError::Expired);

    // a wrong secret is tampering whatever the clock says
    assert_eq!(
        decode_at(&token, "wrong", 4_999).unwrap_err(),
        DecodeError::Tempered
    );
}
