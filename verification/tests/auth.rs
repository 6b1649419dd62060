use soft_plc::auth::{from_request, hash_check_passes, validate_api_key, verify_password, DbError, User};

fn user_with(password: &str) -> User {
    User { password: bcrypt::hash(password, 4).unwrap() }
}

#[test]
fn right_password_is_verified() {
    assert_eq!(verify_password(Ok(Some(user_with("hunter2"))), "hunter2"), Ok(true));
}

#[test]
fn wrong_password_is_not_verified() {
    assert_eq!(verify_password(Ok(Some(user_with("hunter2"))), "hunter3"), Ok(false));
}

#[test]
fn unknown_user_is_not_verified() {
    assert_eq!(verify_password(Ok(None), "anything"), Ok(false));
}

#[test]
fn malformed_hash_is_not_verified() {
    let empty = User { password: String::new() };
    assert_eq!(verify_password(Ok(Some(empty)), ""), Ok(false));
    let plain = User { password: "hunter2".to_string() };
    assert_eq!(verify_password(Ok(Some(plain)), "hunter2"), Ok(false));
}

#[test]
fn database_failure_is_passed_on() {
    assert_eq!(verify_password(Err(DbError), "hunter2"), Err(DbError));
}

#[test]
fn hash_check_outcomes() {
    assert!(hash_check_passes(Ok(true)));
    assert!(!hash_check_passes(Ok(false)));
    assert!(!hash_check_passes(bcrypt::verify("x", "")));
}

#[test]
fn api_keys() {
    assert!(validate_api_key(1));
    assert!(validate_api_key(3));
    assert!(!validate_api_key(0));
    assert!(!validate_api_key(-1));
    let key = from_request(Some("k-123".to_string()), 1).unwrap();
    assert_eq!(key.0, "k-123");
    assert!(from_request(Some("k-123".to_string()), 0).is_none());
    assert!(from_request(None, 5).is_none());
}
