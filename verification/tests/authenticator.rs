use base64::Engine;
use bearer_auth::authenticator::Authenticator;
use bearer_auth::bearer::BearerToken;
use bearer_auth::tokens::AuthenticatedUserToken;
use bearer_auth::error::AuthError;
use bearer_auth::header::Authorization;
use bearer_auth::time::{Duration, ExpirationTime};
use bearer_auth::user::PublicUser;

fn alice() -> PublicUser {
    PublicUser::new("alice@example.com".to_string(), "alice".to_string())
}

#[test]
fn validate_a_token() {
    let auth = Authenticator::new(b"password");
    let bearer = auth
        .create_token(
            &PublicUser::new("test".to_string(), "test".to_string()),
            Duration::days(30),
        )
        .unwrap();
    auth.validate_token(&bearer).expect("couldn't verify");
}

#[test]
fn thirty_day_token_scenario() {
    // Issue at T0 with a 30-day TTL; verifying at T0 + 29 days succeeds
    // and returns T0 + 30 days; verifying at T0 + 31 days reports the
    // token expired at T0 + 30 days.
    let day: u64 = 86400000;
    let t0 = ExpirationTime::from_millis(1_700_000_000_000);
    let auth = Authenticator::new(b"secret-key");
    let token = auth.create_token_at(&alice(), Duration::days(30), t0);

    let at_29 = ExpirationTime::from_millis(t0.timestamp_millis() + 29 * day);
    let expires = auth.validate_token_at(&token, at_29).expect("should verify");
    assert_eq!(expires.timestamp_millis(), t0.timestamp_millis() + 30 * day);

    let at_31 = ExpirationTime::from_millis(t0.timestamp_millis() + 31 * day);
    match auth.validate_token_at(&token, at_31) {
        Err(AuthError::TokenExpired(at)) => {
            assert_eq!(at.timestamp_millis(), t0.timestamp_millis() + 30 * day);
        }
        other => panic!("expected TokenExpired, got {:?}", other),
    }
}

#[test]
fn already_expired_token_is_rejected() {
    // A token issued with a negative TTL is expired from the start.
    let t0 = ExpirationTime::from_millis(1_700_000_000_000);
    let auth = Authenticator::new(b"secret-key");
    let token = auth.create_token_at(&alice(), Duration::seconds(-1), t0);
    match auth.validate_token_at(&token, t0) {
        Err(AuthError::TokenExpired(at)) => {
            assert_eq!(at.timestamp_millis(), t0.timestamp_millis() - 1000);
        }
        other => panic!("expected TokenExpired, got {:?}", other),
    }
}

#[test]
fn expiration_boundary_is_expired() {
    // An expiration equal to "now" counts as passed.
    let t0 = ExpirationTime::from_millis(1_700_000_000_000);
    let auth = Authenticator::new(b"secret-key");
    let token = auth.create_token_at(&alice(), Duration::milliseconds(500), t0);
    let at = ExpirationTime::from_millis(t0.timestamp_millis() + 500);
    assert!(matches!(
        auth.validate_token_at(&token, at),
        Err(AuthError::TokenExpired(_))
    ));
}

#[test]
fn flipping_any_signed_byte_breaks_verification() {
    // Flip every byte of the signed bytes the token's text carries: each
    // flip, in the tag or the payload, must be caught by verification.
    let t0 = ExpirationTime::from_millis(1_700_000_000_000);
    let auth = Authenticator::new(b"secret-key");
    let token = auth.create_token_at(&alice(), Duration::days(1), t0);
    let raw = base64::engine::general_purpose::STANDARD
        .decode(token.as_bytes())
        .expect("issued tokens are base64 text");
    for i in 0..raw.len() {
        let mut altered = raw.clone();
        altered[i] ^= 0x01;
        let text = base64::engine::general_purpose::STANDARD.encode(&altered);
        let tampered = BearerToken::from(text.into_bytes());
        match auth.validate_token_at(&tampered, t0) {
            Err(AuthError::VerificationError) => {}
            other => panic!("byte {} flipped: expected VerificationError, got {:?}", i, other),
        }
    }
}

#[test]
fn flipping_any_text_byte_never_validates() {
    // Flips of the textual rendering itself may also break the base64
    // shape; they must never be accepted.
    let t0 = ExpirationTime::from_millis(1_700_000_000_000);
    let auth = Authenticator::new(b"secret-key");
    let token = auth.create_token_at(&alice(), Duration::days(1), t0);
    let bytes = token.as_bytes().to_vec();
    for i in 0..bytes.len() {
        let mut altered = bytes.clone();
        altered[i] ^= 0x01;
        let tampered = BearerToken::from(altered);
        assert!(
            auth.validate_token_at(&tampered, t0).is_err(),
            "text byte {} flipped and still accepted",
            i
        );
    }
}

#[test]
fn undecodable_payload_is_unparseable_even_when_badly_signed() {
    // A token whose payload is not structurally decodable reports a
    // parse failure, not a verification failure, whether or not its tag
    // matches.
    let auth = Authenticator::new(b"secret-key");
    let t0 = ExpirationTime::from_millis(1_700_000_000_000);
    let mut raw = vec![0u8; 48]; // a tag that matches nothing
    raw.extend_from_slice(&1_700_000_100_000u64.to_le_bytes());
    raw.push(0xFF); // subject bytes that are not text
    let text = base64::engine::general_purpose::STANDARD.encode(&raw);
    let token = BearerToken::from(text.into_bytes());
    assert!(matches!(
        auth.validate_token_at(&token, t0),
        Err(AuthError::TokenParseError)
    ));
}

#[test]
fn issued_token_survives_header_round_trip() {
    let t0 = ExpirationTime::from_millis(1_700_000_000_000);
    let auth = Authenticator::new(b"secret-key");
    let token = auth.create_token_at(&alice(), Duration::days(1), t0);
    // The token is text, so rendering it into a header and parsing the
    // header back yields a token that still verifies.
    let rendered = token.render();
    let reparsed = Authorization::parse(rendered.as_bytes()).expect("header parses");
    let expires = auth
        .validate_token_at(reparsed.bearer(), t0)
        .expect("round-tripped token verifies");
    assert_eq!(expires.timestamp_millis(), t0.timestamp_millis() + 86400000);
}

#[test]
fn wrong_key_fails_verification() {
    let t0 = ExpirationTime::from_millis(1_700_000_000_000);
    let issuer = Authenticator::new(b"key-one");
    let other = Authenticator::new(b"key-two");
    let token = issuer.create_token_at(&alice(), Duration::days(1), t0);
    assert!(matches!(
        other.validate_token_at(&token, t0),
        Err(AuthError::VerificationError)
    ));
}

#[test]
fn short_token_is_unparseable() {
    let auth = Authenticator::new(b"secret-key");
    let t0 = ExpirationTime::from_millis(1_700_000_000_000);
    let short = BearerToken::from(vec![1u8, 2, 3]);
    assert!(matches!(
        auth.validate_token_at(&short, t0),
        Err(AuthError::TokenParseError)
    ));
}

#[test]
fn token_carries_subject_and_expiration() {
    let t0 = ExpirationTime::from_millis(1_700_000_000_000);
    let auth = Authenticator::new(b"secret-key");
    let token = auth.create_token_at(&alice(), Duration::days(1), t0);
    // Inside the base64 text, the payload sits behind the 48-byte tag;
    // it decodes to the claims.
    let raw = base64::engine::general_purpose::STANDARD
        .decode(token.as_bytes())
        .expect("issued tokens are base64 text");
    let claims = AuthenticatedUserToken::decode(&raw[48..]).expect("payload decodes");
    assert_eq!(claims.email(), "alice@example.com");
    assert_eq!(
        claims.expiration_time().timestamp_millis(),
        t0.timestamp_millis() + 86400000
    );
}
