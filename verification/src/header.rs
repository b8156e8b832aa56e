//! The authorization header: the `Bearer` scheme carrying a token, and
//! the `Basic` scheme carrying base64 credentials for the login exchange.

use crate::bearer::BearerToken;
use crate::error::AuthError;
use crate::utils::{b64_of, base64_decode, bytes_range, find_byte, starts_with, string_from_utf8};
use vstd::prelude::*;
use vstd::string::StringSliceAdditionalSpecFns;
use vstd::utf8::{decode_utf8, valid_utf8};

verus! {

/// The bytes of the literal `Bearer ` scheme prefix.
pub open spec fn spec_bearer_prefix() -> Seq<u8> {
    seq![66u8, 101u8, 97u8, 114u8, 101u8, 114u8, 32u8]
}

/// The bytes of the literal `Basic ` scheme prefix.
pub open spec fn spec_basic_prefix() -> Seq<u8> {
    seq![66u8, 97u8, 115u8, 105u8, 99u8, 32u8]
}

/// The literal `Bearer ` scheme prefix.
fn bearer_prefix() -> (r: Vec<u8>)
    ensures
        r@ == spec_bearer_prefix(),
{
    let v: Vec<u8> = vec![66u8, 101u8, 97u8, 114u8, 101u8, 114u8, 32u8];
    proof {
        assert(v@ =~= spec_bearer_prefix());
    }
    v
}

/// The literal `Basic ` scheme prefix.
fn basic_prefix() -> (r: Vec<u8>)
    ensures
        r@ == spec_basic_prefix(),
{
    let v: Vec<u8> = vec![66u8, 97u8, 115u8, 105u8, 99u8, 32u8];
    proof {
        assert(v@ =~= spec_basic_prefix());
    }
    v
}

/// Whether a header value uses the `Bearer` scheme.
pub open spec fn spec_is_bearer(value: Seq<u8>) -> bool {
    value.len() >= 7 && value.subrange(0, 7) == spec_bearer_prefix()
}

/// The token bytes a `Bearer` header value carries.
pub open spec fn spec_bearer_content(value: Seq<u8>) -> Seq<u8> {
    value.subrange(7, value.len() as int)
}

/// Authorization header.
#[derive(Debug)]
pub struct Authorization {
    bearer: BearerToken,
}

impl Authorization {
    /// The carried token's bytes, as a mathematical value.
    pub closed spec fn spec_bearer(&self) -> Seq<u8> {
        self.bearer@
    }

    /// Create a new authorization header from a bearer token.
    pub fn new(bearer: BearerToken) -> (r: Authorization)
        ensures
            r.spec_bearer() == bearer@,
    {
        Authorization { bearer }
    }

    /// Gets the bearer token.
    pub fn bearer(&self) -> (r: &BearerToken)
        ensures
            r@ == self.spec_bearer(),
    {
        &self.bearer
    }

    /// Parses a header value: strips the literal `Bearer ` prefix and
    /// treats the remainder as the raw token bytes. A value of any other
    /// shape is a client error, not a token.
    pub fn parse(value: &[u8]) -> (r: Result<Authorization, AuthError>)
        ensures
            spec_is_bearer(value@) ==> r is Ok && r->Ok_0.spec_bearer() == spec_bearer_content(
                value@,
            ),
            !spec_is_bearer(value@) ==> r is Err && r->Err_0 is TokenParseError,
    {
        let prefix = bearer_prefix();
        if !starts_with(value, prefix.as_slice()) {
            return Err(AuthError::TokenParseError);
        }
        let content = bytes_range(value, 7, value.len());
        Ok(Authorization { bearer: BearerToken::from(content) })
    }
}

/// Builds the `Basic` header value that carries an identifier and a
/// password: the literal prefix, then the base64 rendering of
/// `identifier:password`.
pub fn basic_credentials_value(identifier: &str, password: &[u8]) -> (r: String)
    ensures
        r@ == "Basic "@ + b64_of(identifier.spec_bytes() + seq![58u8] + password@),
{
    let mut credentials: Vec<u8> = vstd::slice::slice_to_vec(identifier.as_bytes());
    credentials.push(58);
    let mut password_vec: Vec<u8> = vstd::slice::slice_to_vec(password);
    credentials.append(&mut password_vec);
    proof {
        assert(credentials@ =~= identifier.spec_bytes() + seq![58u8] + password@);
    }
    let encoded = crate::utils::base64_encode(credentials.as_slice());
    let mut out = "Basic ".to_owned();
    out.append(encoded.as_str());
    out
}

/// Parses a `Basic` header value into the identifier and password it
/// carries: strips the literal `Basic ` prefix, decodes the base64
/// remainder, and splits the result at its first colon. Succeeds exactly
/// on a value of that shape whose pieces are text: the remainder must be
/// the encoding of some credential bytes holding a colon, with the parts
/// before and after the first colon well-formed UTF-8.
pub fn parse_basic_credentials(value: &[u8]) -> (r: Result<(String, String), AuthError>)
    ensures
        r is Err ==> r->Err_0 is TokenParseError,
        forall|creds: Seq<u8>, i: int|
            #![trigger b64_of(creds), creds[i]]
            {
                &&& value@.len() >= 6
                &&& value@.subrange(0, 6) == spec_basic_prefix()
                &&& valid_utf8(value@.subrange(6, value@.len() as int))
                &&& decode_utf8(value@.subrange(6, value@.len() as int)) == b64_of(creds)
                &&& 0 <= i < creds.len()
                &&& creds[i] == 58
                &&& (forall|j: int| 0 <= j < i ==> creds[j] != 58)
                &&& valid_utf8(creds.subrange(0, i))
                &&& valid_utf8(creds.subrange(i + 1, creds.len() as int))
            } ==> {
                &&& r is Ok
                &&& r->Ok_0.0@ == decode_utf8(creds.subrange(0, i))
                &&& r->Ok_0.1@ == decode_utf8(creds.subrange(i + 1, creds.len() as int))
            },
{
    let prefix = basic_prefix();
    if !starts_with(value, prefix.as_slice()) {
        return Err(AuthError::TokenParseError);
    }
    let encoded = bytes_range(value, 6, value.len());
    let encoded_text = match string_from_utf8(encoded) {
        None => {
            return Err(AuthError::TokenParseError);
        },
        Some(t) => t,
    };
    let creds = match base64_decode(encoded_text.as_str()) {
        None => {
            return Err(AuthError::TokenParseError);
        },
        Some(c) => c,
    };
    let colon = match find_byte(creds.as_slice(), 58) {
        None => {
            return Err(AuthError::TokenParseError);
        },
        Some(i) => i,
    };
    let identifier_bytes = bytes_range(creds.as_slice(), 0, colon);
    let password_bytes = bytes_range(creds.as_slice(), colon + 1, creds.len());
    let identifier = match string_from_utf8(identifier_bytes) {
        None => {
            return Err(AuthError::TokenParseError);
        },
        Some(s) => s,
    };
    let password = match string_from_utf8(password_bytes) {
        None => {
            return Err(AuthError::TokenParseError);
        },
        Some(s) => s,
    };
    Ok((identifier, password))
}

} // verus!
