use bearer_auth::bearer::BearerToken;
use bearer_auth::error::AuthError;
use bearer_auth::header::{basic_credentials_value, parse_basic_credentials, Authorization};
use bearer_auth::utils::encode_base64;

#[test]
fn bearer_header_parses_to_its_token() {
    let auth = Authorization::parse(b"Bearer abc123").expect("parses");
    assert_eq!(auth.bearer().as_bytes(), b"abc123");
}

#[test]
fn bearer_header_round_trips_through_rendering() {
    let token = BearerToken::from(b"abc123".to_vec());
    let auth = Authorization::new(token.clone());
    let rendered = auth.bearer().render();
    assert_eq!(rendered, "Bearer abc123");
    let reparsed = Authorization::parse(rendered.as_bytes()).expect("parses");
    assert_eq!(*reparsed.bearer(), token);
}

#[test]
fn non_bearer_header_is_rejected() {
    assert!(matches!(
        Authorization::parse(b"Basic abc123"),
        Err(AuthError::TokenParseError)
    ));
    assert!(matches!(
        Authorization::parse(b"Bearer"),
        Err(AuthError::TokenParseError)
    ));
    assert!(matches!(
        Authorization::parse(b"bearer abc"),
        Err(AuthError::TokenParseError)
    ));
}

#[test]
fn basic_credentials_round_trip() {
    let value = basic_credentials_value("alice@example.com", b"hunter2");
    assert_eq!(value, "Basic YWxpY2VAZXhhbXBsZS5jb206aHVudGVyMg==");
    let (identifier, password) = parse_basic_credentials(value.as_bytes()).expect("parses");
    assert_eq!(identifier, "alice@example.com");
    assert_eq!(password, "hunter2");
}

#[test]
fn basic_credentials_split_at_first_colon() {
    // A password may itself hold colons; only the first one separates.
    let value = basic_credentials_value("user", b"pa:ss");
    let (identifier, password) = parse_basic_credentials(value.as_bytes()).expect("parses");
    assert_eq!(identifier, "user");
    assert_eq!(password, "pa:ss");
}

#[test]
fn malformed_basic_credentials_are_rejected() {
    // Wrong scheme.
    assert!(parse_basic_credentials(b"Bearer abc").is_err());
    // Not base64.
    assert!(parse_basic_credentials(b"Basic !!!").is_err());
    // No colon inside the decoded credentials ("usernopass").
    assert!(parse_basic_credentials(b"Basic dXNlcm5vcGFzcw==").is_err());
}

#[test]
fn base64_of_known_values() {
    assert_eq!(encode_base64(""), "");
    assert_eq!(encode_base64("hello"), "aGVsbG8=");
    assert_eq!(encode_base64("hi"), "aGk=");
}

#[test]
fn token_renders_with_the_bearer_prefix() {
    let token = BearerToken::from(b"opaque-value".to_vec());
    assert_eq!(token.render(), "Bearer opaque-value");
}
