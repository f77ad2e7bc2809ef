use rusty_chatroom::auth::{bearer_token, token_expiry, AuthError, AuthenticationService};

#[test]
fn bearer_token_is_read_after_prefix() {
    assert_eq!(bearer_token(Some("Bearer abc.def".to_string())), Ok("abc.def".to_string()));
    assert_eq!(bearer_token(Some("Bearer ".to_string())), Ok(String::new()));
}

#[test]
fn bearer_token_errors() {
    assert_eq!(bearer_token(None), Err(AuthError::MissingHeader));
    assert_eq!(bearer_token(Some("Basic abc".to_string())), Err(AuthError::InvalidHeader));
    assert_eq!(bearer_token(Some("Bearer".to_string())), Err(AuthError::InvalidHeader));
    assert_eq!(bearer_token(Some("bearer abc".to_string())), Err(AuthError::InvalidHeader));
}

#[test]
fn token_expiry_is_one_hour_after_now() {
    assert_eq!(token_expiry(1_700_000_000_999), 1_700_000_000 + 3600);
    assert_eq!(token_expiry(0), 3600);
}

#[test]
fn service_keeps_its_secret() {
    let s = AuthenticationService::new("s3cret".to_string());
    assert_eq!(s.jwt_secret(), "s3cret");
}
