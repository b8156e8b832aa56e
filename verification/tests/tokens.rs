use bearer_auth::bearer::BearerToken;
use bearer_auth::cli::{LogLevel, LoggingArgs, WebServerArgs};
use bearer_auth::time::{Duration, ExpirationTime};
use bearer_auth::tokens::AuthenticatedUserToken;
use bearer_auth::user::PublicUser;
use bearer_auth::User;

#[test]
fn payload_round_trips_through_bytes() {
    let user = PublicUser::new("alice@example.com".to_string(), "alice".to_string());
    let claims = AuthenticatedUserToken::new(&user, ExpirationTime::from_millis(123_456_789));
    let bytes = claims.encode();
    let decoded = AuthenticatedUserToken::decode(&bytes).expect("decodes");
    assert_eq!(decoded.email(), "alice@example.com");
    assert_eq!(decoded.expiration_time().timestamp_millis(), 123_456_789);
}

#[test]
fn short_payload_does_not_decode() {
    assert!(AuthenticatedUserToken::decode(&[1, 2, 3]).is_none());
}

#[test]
fn non_text_subject_does_not_decode() {
    let user = PublicUser::new("alice".to_string(), "alice".to_string());
    let claims = AuthenticatedUserToken::new(&user, ExpirationTime::from_millis(1));
    let mut bytes = claims.encode();
    bytes.push(0xFF);
    assert!(AuthenticatedUserToken::decode(&bytes).is_none());
}

#[test]
fn durations_convert_to_milliseconds() {
    assert_eq!(Duration::milliseconds(250).millis, 250);
    assert_eq!(Duration::seconds(-1).millis, -1000);
    assert_eq!(Duration::days(30).millis, 2_592_000_000);
}

#[test]
fn instant_arithmetic_clamps_at_both_ends() {
    let t = ExpirationTime::from_millis(5);
    assert_eq!(t.add_duration(Duration::milliseconds(-10)).timestamp_millis(), 0);
    let top = ExpirationTime::from_millis(u64::MAX - 1);
    assert_eq!(
        top.add_duration(Duration::milliseconds(i64::MAX)).timestamp_millis(),
        u64::MAX
    );
    let mid = ExpirationTime::from_millis(1000);
    assert_eq!(mid.add_duration(Duration::seconds(2)).timestamp_millis(), 3000);
}

#[test]
fn expiration_uses_at_most_semantics() {
    let t = ExpirationTime::from_millis(100);
    assert!(t.has_passed(ExpirationTime::from_millis(100)));
    assert!(t.has_passed(ExpirationTime::from_millis(101)));
    assert!(!t.has_passed(ExpirationTime::from_millis(99)));
}

#[test]
fn bearer_tokens_compare_by_bytes() {
    let a = BearerToken::from(vec![1u8, 2, 3]);
    let b = BearerToken::from(vec![1u8, 2, 3]);
    let c = BearerToken::from(vec![1u8, 2, 4]);
    assert_eq!(a, b);
    assert_ne!(a, c);
    assert_eq!(a.clone(), b);
    assert_eq!(a.len(), 3);
}

#[test]
fn users_expose_and_update_their_fields() {
    let mut user = PublicUser::new("alice@example.com".to_string(), "alice".to_string());
    assert_eq!(user.username(), "alice");
    assert_eq!(user.email(), "alice@example.com");
    user.set_username("alicia");
    assert_eq!(user.username(), "alicia");
}

#[test]
fn verbosity_selects_the_log_level() {
    assert_eq!(LoggingArgs { verbosity: 0 }.level(), Some(LogLevel::Info));
    assert_eq!(LoggingArgs { verbosity: 1 }.level(), Some(LogLevel::Debug));
    assert_eq!(LoggingArgs { verbosity: 2 }.level(), Some(LogLevel::Trace));
    assert_eq!(LoggingArgs { verbosity: 3 }.level(), None);
}

#[test]
fn web_server_defaults_to_localhost() {
    let args = WebServerArgs::default();
    assert_eq!(args.ip, "localhost");
    assert_eq!(args.port, 8080);
}
