//! The signed token's payload: a subject identity and an expiration,
//! serialized to bytes and parsed back.

use crate::time::{spec_add_duration, Duration, ExpirationTime};
use crate::utils::{bytes_range, string_from_utf8};
use crate::User;
use vstd::bytes::{
    lemma_auto_spec_u64_to_from_le_bytes, spec_u64_from_le_bytes, spec_u64_to_le_bytes,
    u64_from_le_bytes, u64_to_le_bytes,
};
use vstd::prelude::*;
use vstd::string::StrSliceExecFns;
use vstd::string::StringSliceAdditionalSpecFns;
use vstd::utf8::{decode_utf8, encode_utf8, encode_utf8_decode_utf8, encode_utf8_valid_utf8, valid_utf8};

verus! {

/// The number of leading payload bytes that carry the expiration.
pub const EXPIRATION_LEN: usize = 8;

/// The serialized payload: the expiration as eight little-endian bytes,
/// then the subject's email bytes.
pub open spec fn spec_payload(email: Seq<char>, expiration_millis: u64) -> Seq<u8> {
    spec_u64_to_le_bytes(expiration_millis) + encode_utf8(email)
}

/// What parsing a payload yields: the expiration and the subject's email,
/// or nothing when the bytes are too short or the email is not text.
pub open spec fn spec_parse_payload(bytes: Seq<u8>) -> Option<(u64, Seq<char>)> {
    if bytes.len() < EXPIRATION_LEN {
        None
    } else if !valid_utf8(bytes.subrange(EXPIRATION_LEN as int, bytes.len() as int)) {
        None
    } else {
        Some(
            (
                spec_u64_from_le_bytes(bytes.subrange(0, EXPIRATION_LEN as int)),
                decode_utf8(bytes.subrange(EXPIRATION_LEN as int, bytes.len() as int)),
            ),
        )
    }
}

/// Parsing inverts serialization: a payload built from an email and an
/// expiration parses back to exactly that email and expiration.
pub proof fn lemma_payload_round_trip(email: Seq<char>, expiration_millis: u64)
    ensures
        spec_parse_payload(spec_payload(email, expiration_millis)) == Some(
            (expiration_millis, email),
        ),
{
    lemma_auto_spec_u64_to_from_le_bytes();
    broadcast use encode_utf8_valid_utf8, encode_utf8_decode_utf8;

    let bytes = spec_payload(email, expiration_millis);
    assert(bytes.subrange(0, EXPIRATION_LEN as int) =~= spec_u64_to_le_bytes(expiration_millis));
    assert(bytes.subrange(EXPIRATION_LEN as int, bytes.len() as int) =~= encode_utf8(email));
}

/// The authenticated claims embedded in a signed token: who the bearer is
/// and until when the token is good.
#[derive(Debug)]
pub struct AuthenticatedUserToken {
    /// The subject's email identifier.
    pub email: String,
    /// The instant the token stops being good.
    pub expiration_time: ExpirationTime,
}

impl AuthenticatedUserToken {
    /// Creates a new authenticated user token with an expiration time.
    pub fn new<U: User>(email: &U, expiration_time: ExpirationTime) -> (r: AuthenticatedUserToken)
        ensures
            r.email@ == email.spec_email(),
            r.expiration_time == expiration_time,
    {
        AuthenticatedUserToken { email: email.email(), expiration_time }
    }

    /// Creates a new authenticated user token that expires after a set
    /// time, measured from the current instant.
    pub fn with_valid_duration<U: User>(email: &U, expires_after: Duration) -> (r:
        AuthenticatedUserToken)
        ensures
            r.email@ == email.spec_email(),
            exists|now: u64|
                now <= i64::MAX && r.expiration_time.millis == spec_add_duration(
                    now,
                    expires_after.millis,
                ),
    {
        let now = ExpirationTime::now();
        AuthenticatedUserToken { email: email.email(), expiration_time: now.add_duration(
            expires_after,
        ) }
    }

    /// The subject's email identifier.
    pub fn email(&self) -> (r: &str)
        ensures
            r@ == self.email@,
    {
        self.email.as_str()
    }

    /// The instant the token stops being good.
    pub fn expiration_time(&self) -> (r: ExpirationTime)
        ensures
            r == self.expiration_time,
    {
        self.expiration_time
    }

    /// Serializes the claims to payload bytes.
    pub fn encode(&self) -> (r: Vec<u8>)
        ensures
            r@ == spec_payload(self.email@, self.expiration_time.millis),
    {
        let mut out = u64_to_le_bytes(self.expiration_time.millis);
        let mut email_bytes = self.email.as_str().as_bytes_vec();
        out.append(&mut email_bytes);
        out
    }

    /// Parses payload bytes back into claims.
    pub fn decode(bytes: &[u8]) -> (r: Option<AuthenticatedUserToken>)
        ensures
            match spec_parse_payload(bytes@) {
                Some((expiration_millis, email)) => {
                    &&& r is Some
                    &&& r->0.email@ == email
                    &&& r->0.expiration_time.millis == expiration_millis
                },
                None => r is None,
            },
    {
        if bytes.len() < EXPIRATION_LEN {
            return None;
        }
        let expiration_bytes = vstd::slice::slice_subrange(bytes, 0, EXPIRATION_LEN);
        let expiration_millis = u64_from_le_bytes(expiration_bytes);
        let email_bytes = bytes_range(bytes, EXPIRATION_LEN, bytes.len());
        match string_from_utf8(email_bytes) {
            None => None,
            Some(email) => Some(
                AuthenticatedUserToken {
                    email,
                    expiration_time: ExpirationTime::from_millis(expiration_millis),
                },
            ),
        }
    }
}

} // verus!
