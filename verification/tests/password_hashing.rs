use todo_auth::password::{hash_password, verify_password};

#[test]
fn test_hash_password() {
    let password = "password";
    let hash = hash_password(password).unwrap();
    assert!(verify_password(password, &hash));
}

#[test]
fn test_hash_password_use_salt() {
    let password = "password";
    assert_ne!(
        hash_password(password).unwrap(),
        hash_password(password).unwrap()
    );
}

#[test]
fn test_verify_password_success() {
    let password = "password";
    let hash = hash_password(password).unwrap();
    assert!(verify_password(password, &hash));
}

#[test]
fn test_verify_password_fail() {
    let password = "password";
    let hash = hash_password(password).unwrap();

    assert!(!verify_password("wrong_password", &hash));
    assert!(!verify_password("Password", &hash));
}

#[test]
fn verify_password_malformed_digest_is_false() {
    assert!(!verify_password("password", ""));
    assert!(!verify_password("password", "not a bcrypt digest"));
}
