use sqlite_editor::auth::middleware::{bearer_token_of, extract_token, AuthError, AuthorizationHeader};

#[test]
fn test_extract_token_valid_header() {
    let header = AuthorizationHeader::Text("Bearer abc123".to_string());
    let token = extract_token(&header).ok().unwrap();
    assert_eq!(token, "abc123");
}

#[test]
fn test_extract_token_missing_header() {
    let result = extract_token(&AuthorizationHeader::Missing);
    assert!(result.is_err());
}

#[test]
fn extract_token_error_messages() {
    let m = |h: AuthorizationHeader| match extract_token(&h) {
        Err(e) => e.message(),
        Ok(t) => panic!("unexpected token {t}"),
    };
    assert_eq!(m(AuthorizationHeader::Missing), "Missing Authorization header");
    assert_eq!(m(AuthorizationHeader::NotText), "Invalid Authorization header");
    assert_eq!(m(AuthorizationHeader::Text("Basic abc".to_string())), "Authorization header must start with Bearer");
    assert_eq!(m(AuthorizationHeader::Text("bearer abc".to_string())), "Authorization header must start with Bearer");
    assert_eq!(m(AuthorizationHeader::Text("Bearer".to_string())), "Authorization header must start with Bearer");
    assert_eq!(AuthError::InvalidToken("ExpiredSignature".to_string()).message(), "Invalid token: ExpiredSignature");
}

#[test]
fn bearer_round_trip() {
    for t in ["", "abc", "x.y.z", "Bearer nested", "ünïcode"] {
        let header = format!("Bearer {t}");
        assert_eq!(bearer_token_of(&header).unwrap(), t);
    }
    assert_eq!(bearer_token_of("Bearer "), Some(String::new()));
    assert_eq!(bearer_token_of("Bearer"), None);
}
