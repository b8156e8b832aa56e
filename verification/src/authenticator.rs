//! Issues and validates signed bearer tokens.
//!
//! The signed bytes are the keyed tag over the serialized payload,
//! followed by the payload itself; a token carries them as one opaque
//! base64 string, so it travels in a textual header unchanged. Validation
//! decodes the text, recomputes the tag over the embedded payload and
//! compares it against the embedded tag before trusting any payload
//! field; only then is the expiration read and checked.

use crate::auth::AuthService;
use crate::bearer::{bytes_eq, BearerToken};
use crate::error::AuthError;
use crate::time::{spec_add_duration, Duration, ExpirationTime};
use crate::tokens::{
    lemma_payload_round_trip, spec_parse_payload, spec_payload, AuthenticatedUserToken,
    EXPIRATION_LEN,
};
use crate::user::PublicUser;
use crate::utils::{b64_of, base64_decode, base64_encode, bytes_range, string_from_utf8};
use hmac::{Hmac, Mac};
use sha2::Sha384;
use vstd::prelude::*;
use vstd::slice::slice_to_vec;
use vstd::string::StrSliceExecFns;
use vstd::utf8::{decode_utf8, encode_utf8, valid_utf8};

verus! {

/// The number of bytes in a token's keyed tag.
pub const TAG_LEN: usize = 48;

/// The keyed tag HMAC-SHA-384 computes for a message: a pure function of
/// the key and the message.
pub uninterp spec fn hmac_sha384_of(key: Seq<u8>, message: Seq<u8>) -> Seq<u8>;

/// The tag embedded in tokens, as a total function that is always
/// `TAG_LEN` bytes wide; the computed tag always falls in the first case.
pub open spec fn spec_tag(key: Seq<u8>, message: Seq<u8>) -> Seq<u8> {
    let raw = hmac_sha384_of(key, message);
    if raw.len() == TAG_LEN {
        raw
    } else {
        Seq::new(TAG_LEN as nat, |i| 0u8)
    }
}

/// Relies on `hmac::Hmac<sha2::Sha384>`: the tag is 48 bytes and depends
/// on the key and the message alone. HMAC accepts a key of any length, so
/// construction cannot fail.
#[verifier::external_body]
fn hmac_sha384(key: &[u8], message: &[u8]) -> (r: Vec<u8>)
    ensures
        r@ == hmac_sha384_of(key@, message@),
        r@.len() == TAG_LEN,
{
    let mut mac = <Hmac<Sha384> as Mac>::new_from_slice(key).expect("any key length is accepted");
    mac.update(message);
    mac.finalize().into_bytes().to_vec()
}

/// The signed bytes issued for an email under a key, expiring at the
/// given instant: the tag over the payload, then the payload. A bearer
/// token carries these bytes in their base64 text rendering.
pub open spec fn spec_issue(key: Seq<u8>, email: Seq<char>, expiration_millis: u64) -> Seq<u8> {
    spec_tag(key, spec_payload(email, expiration_millis)) + spec_payload(email, expiration_millis)
}

/// The bearer token issued for an email under a key: the signed bytes,
/// rendered as base64 text and carried as that text's bytes.
pub open spec fn spec_issue_token(key: Seq<u8>, email: Seq<char>, expiration_millis: u64) -> Seq<
    u8,
> {
    encode_utf8(b64_of(spec_issue(key, email, expiration_millis)))
}

/// What validating signed bytes under a key at an instant returns: a
/// structurally undecodable token — too short, or with a payload that
/// does not parse — is unparseable, whether or not its tag matches; a
/// decodable token whose tag does not match its payload is a
/// verification failure, distinct from the unparseable case; only a
/// decodable, well-signed token yields its expiration, as an error if it
/// has passed. Classifying by parse outcome trusts no payload field: a
/// field's value enters the result only after the tag has matched.
pub open spec fn spec_validate(key: Seq<u8>, token: Seq<u8>, now_millis: u64) -> Result<
    ExpirationTime,
    AuthError,
> {
    if token.len() < TAG_LEN + EXPIRATION_LEN {
        Err(AuthError::TokenParseError)
    } else {
        let tag = token.subrange(0, TAG_LEN as int);
        let payload = token.subrange(TAG_LEN as int, token.len() as int);
        match spec_parse_payload(payload) {
            None => Err(AuthError::TokenParseError),
            Some((expiration_millis, email)) => {
                if tag != spec_tag(key, payload) {
                    Err(AuthError::VerificationError)
                } else if expiration_millis <= now_millis {
                    Err(AuthError::TokenExpired(ExpirationTime { millis: expiration_millis }))
                } else {
                    Ok(ExpirationTime { millis: expiration_millis })
                }
            },
        }
    }
}

/// What validating a bearer token's bytes returns: the bytes must be the
/// base64 text of some signed bytes, which are then validated; anything
/// else is unparseable. Which signed bytes the text decodes to is fixed
/// by base64 itself; the `choose` here names them.
pub open spec fn spec_validate_text(key: Seq<u8>, token: Seq<u8>, now_millis: u64) -> Result<
    ExpirationTime,
    AuthError,
> {
    if valid_utf8(token) && (exists|raw: Seq<u8>| decode_utf8(token) == b64_of(raw)) {
        let raw = choose|raw: Seq<u8>| decode_utf8(token) == b64_of(raw);
        spec_validate(key, raw, now_millis)
    } else {
        Err(AuthError::TokenParseError)
    }
}

/// Used for authenticating: owns the symmetric signing key, supplied as
/// explicit configuration at construction.
#[derive(Debug)]
pub struct Authenticator {
    key: Vec<u8>,
}

impl Authenticator {
    /// The signing key, as a mathematical value.
    pub closed spec fn spec_key(&self) -> Seq<u8> {
        self.key@
    }

    /// Creates a token factory signing with `secret`.
    pub fn new(secret: &[u8]) -> (r: Authenticator)
        ensures
            r.spec_key() == secret@,
    {
        Authenticator { key: slice_to_vec(secret) }
    }

    /// Issues a token for a user that expires `expires_in` after `now`:
    /// the signed bytes, rendered as one opaque base64 string.
    pub fn create_token_at(&self, user: &PublicUser, expires_in: Duration, now: ExpirationTime)
        -> (r: BearerToken)
        ensures
            r@ == spec_issue_token(
                self.spec_key(),
                user.email@,
                spec_add_duration(now.millis, expires_in.millis),
            ),
    {
        let claims = AuthenticatedUserToken::new(user, now.add_duration(expires_in));
        let mut payload = claims.encode();
        let mut raw = hmac_sha384(self.key.as_slice(), payload.as_slice());
        raw.append(&mut payload);
        let text = base64_encode(raw.as_slice());
        BearerToken::from(text.as_str().as_bytes_vec())
    }

    /// Creates a token for a user, good for `expires_in` measured from the
    /// current instant.
    pub fn create_token(&self, user: &PublicUser, expires_in: Duration) -> (r: Result<
        BearerToken,
        AuthError,
    >)
        ensures
            r is Ok,
            exists|now: u64|
                now <= i64::MAX && r->Ok_0@ == spec_issue_token(
                    self.spec_key(),
                    user.email@,
                    spec_add_duration(now, expires_in.millis),
                ),
    {
        let now = ExpirationTime::now();
        let token = self.create_token_at(user, expires_in, now);
        Ok(token)
    }

    /// Validates already-decoded signed bytes against the instant `now`.
    fn validate_raw(&self, raw: &Vec<u8>, now: ExpirationTime) -> (r: Result<
        ExpirationTime,
        AuthError,
    >)
        ensures
            r == spec_validate(self.spec_key(), raw@, now.millis),
    {
        let n = raw.len();
        if n < TAG_LEN + EXPIRATION_LEN {
            return Err(AuthError::TokenParseError);
        }
        let bytes = raw.as_slice();
        let tag = bytes_range(bytes, 0, TAG_LEN);
        let payload = bytes_range(bytes, TAG_LEN, n);
        match AuthenticatedUserToken::decode(payload.as_slice()) {
            None => Err(AuthError::TokenParseError),
            Some(claims) => {
                let expected = hmac_sha384(self.key.as_slice(), payload.as_slice());
                if !bytes_eq(tag.as_slice(), expected.as_slice()) {
                    return Err(AuthError::VerificationError);
                }
                let expiration = claims.expiration_time();
                if expiration.has_passed(now) {
                    Err(AuthError::TokenExpired(expiration))
                } else {
                    Ok(expiration)
                }
            },
        }
    }

    /// Validates the token against the instant `now`: the token's bytes
    /// must be the base64 text of signed bytes, which are then checked.
    pub fn validate_token_at(&self, bearer: &BearerToken, now: ExpirationTime) -> (r: Result<
        ExpirationTime,
        AuthError,
    >)
        ensures
            r == spec_validate_text(self.spec_key(), bearer@, now.millis),
            forall|raw: Seq<u8>|
                valid_utf8(bearer@) && decode_utf8(bearer@) == #[trigger] b64_of(raw) ==> r
                    == spec_validate(self.spec_key(), raw, now.millis),
    {
        let text = match string_from_utf8(slice_to_vec(bearer.as_bytes())) {
            None => {
                return Err(AuthError::TokenParseError);
            },
            Some(t) => t,
        };
        let raw = match base64_decode(text.as_str()) {
            None => {
                return Err(AuthError::TokenParseError);
            },
            Some(raw) => raw,
        };
        self.validate_raw(&raw, now)
    }

    /// Validates the token against the current instant.
    pub fn validate_token(&self, bearer: &BearerToken) -> (r: Result<ExpirationTime, AuthError>)
        ensures
            exists|now: u64|
                #![auto]
                now <= i64::MAX && r == spec_validate_text(self.spec_key(), bearer@, now),
    {
        let now = ExpirationTime::now();
        let r = self.validate_token_at(bearer, now);
        proof {
            assert(now.millis <= i64::MAX && r == spec_validate_text(
                self.spec_key(),
                bearer@,
                now.millis,
            ));
        }
        r
    }
}

impl Clone for Authenticator {
    /// A copy signing with the same key.
    fn clone(&self) -> (r: Authenticator)
        ensures
            r.spec_key() == self.spec_key(),
    {
        Authenticator { key: slice_to_vec(self.key.as_slice()) }
    }
}

impl AuthService for Authenticator {
    open spec fn validate_spec(&self, token: Seq<u8>, now_millis: u64) -> Result<
        ExpirationTime,
        AuthError,
    > {
        spec_validate_text(self.spec_key(), token, now_millis)
    }

    fn validate_token(&self, token: &BearerToken, now: ExpirationTime) -> (r: Result<
        ExpirationTime,
        AuthError,
    >) {
        self.validate_token_at(token, now)
    }
}

/// Round-trip law: a token issued for any subject with any positive
/// time-to-live validates successfully at issuance time, and the returned
/// expiration lies in the issuance window.
pub proof fn lemma_token_round_trip(key: Seq<u8>, email: Seq<char>, ttl_millis: i64, now: u64)
    requires
        0 < ttl_millis,
        now <= i64::MAX,
    ensures
        ({
            let expiration = spec_add_duration(now, ttl_millis);
            &&& spec_validate(key, spec_issue(key, email, expiration), now) == Ok::<
                ExpirationTime,
                AuthError,
            >(ExpirationTime { millis: expiration })
            &&& now < expiration <= now + ttl_millis
        }),
{
    let expiration = spec_add_duration(now, ttl_millis);
    let payload = spec_payload(email, expiration);
    let token = spec_issue(key, email, expiration);
    assert(token.subrange(0, TAG_LEN as int) =~= spec_tag(key, payload));
    assert(token.subrange(TAG_LEN as int, token.len() as int) =~= payload);
    lemma_payload_round_trip(email, expiration);
}

/// Expiration law: a token issued with a zero or negative time-to-live is
/// already expired, and validating it at or after issuance reports
/// `TokenExpired` with the token's own expiration — which is exactly the
/// issuance instant plus the time-to-live whenever that sum does not fall
/// before the epoch start, where the representation clamps it.
pub proof fn lemma_expired_token_rejected(
    key: Seq<u8>,
    email: Seq<char>,
    ttl_millis: i64,
    now: u64,
    at: u64,
)
    requires
        ttl_millis <= 0,
        now <= at,
    ensures
        ({
            let expiration = spec_add_duration(now, ttl_millis);
            &&& spec_validate(key, spec_issue(key, email, expiration), at) == Err::<
                ExpirationTime,
                AuthError,
            >(AuthError::TokenExpired(ExpirationTime { millis: expiration }))
            &&& now + ttl_millis >= 0 ==> expiration == now + ttl_millis
        }),
{
    let expiration = spec_add_duration(now, ttl_millis);
    let payload = spec_payload(email, expiration);
    let token = spec_issue(key, email, expiration);
    assert(token.subrange(0, TAG_LEN as int) =~= spec_tag(key, payload));
    assert(token.subrange(TAG_LEN as int, token.len() as int) =~= payload);
    lemma_payload_round_trip(email, expiration);
}

/// Tamper-detection law, signature side: altering any single byte of a
/// valid token's tag makes validation report `VerificationError`.
pub proof fn lemma_signature_tamper_detected(
    key: Seq<u8>,
    token: Seq<u8>,
    altered: Seq<u8>,
    now: u64,
    i: int,
)
    requires
        spec_validate(key, token, now) is Ok,
        altered.len() == token.len(),
        0 <= i < TAG_LEN,
        altered[i] != token[i],
        forall|j: int| 0 <= j < token.len() && j != i ==> altered[j] == token[j],
    ensures
        spec_validate(key, altered, now) == Err::<ExpirationTime, AuthError>(
            AuthError::VerificationError,
        ),
{
    let payload = token.subrange(TAG_LEN as int, token.len() as int);
    assert(altered.subrange(TAG_LEN as int, altered.len() as int) =~= payload);
    assert(altered.subrange(0, TAG_LEN as int)[i] != token.subrange(0, TAG_LEN as int)[i]);
}

/// Tamper-detection law, payload side: altering any single byte of a
/// valid token's payload is never accepted, provided the altered
/// payload's tag differs from the embedded one — the keyed tag is exactly
/// the mechanism that makes a coincidence here computationally
/// unfindable. A payload that still parses is reported as a verification
/// failure; one that no longer parses, as unparseable.
pub proof fn lemma_payload_tamper_detected(
    key: Seq<u8>,
    token: Seq<u8>,
    altered: Seq<u8>,
    now: u64,
    i: int,
)
    requires
        spec_validate(key, token, now) is Ok,
        altered.len() == token.len(),
        TAG_LEN <= i < altered.len(),
        altered[i] != token[i],
        forall|j: int| 0 <= j < token.len() && j != i ==> altered[j] == token[j],
        spec_tag(key, altered.subrange(TAG_LEN as int, altered.len() as int)) != spec_tag(
            key,
            token.subrange(TAG_LEN as int, token.len() as int),
        ),
    ensures
        spec_validate(key, altered, now) is Err,
        spec_parse_payload(altered.subrange(TAG_LEN as int, altered.len() as int)) is Some
            ==> spec_validate(key, altered, now) == Err::<ExpirationTime, AuthError>(
            AuthError::VerificationError,
        ),
        spec_parse_payload(altered.subrange(TAG_LEN as int, altered.len() as int)) is None
            ==> spec_validate(key, altered, now) == Err::<ExpirationTime, AuthError>(
            AuthError::TokenParseError,
        ),
{
    assert(altered.subrange(0, TAG_LEN as int) =~= token.subrange(0, TAG_LEN as int));
}

} // verus!
