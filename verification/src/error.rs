//! Authentication failures and their external classification.

use crate::auth::PasswordError;
use crate::time::ExpirationTime;
use vstd::prelude::*;

verus! {

/// The status class of an unauthorized response.
pub const STATUS_UNAUTHORIZED: u16 = 401;

/// The status class of a server-side fault.
pub const STATUS_INTERNAL_ERROR: u16 = 500;

/// Why a credential was rejected.
#[derive(Debug)]
pub enum AuthError {
    /// No user could be found with the given email.
    NoUserFound(String),
    /// The token's signature is valid but its validity window has passed.
    TokenExpired(ExpirationTime),
    /// The token could not be parsed.
    TokenParseError,
    /// The token's signature does not match its payload.
    VerificationError,
    /// A password could not be checked.
    PasswordError(PasswordError),
}

impl AuthError {
    /// The status class this error is reported as to an external caller.
    /// Every user-caused failure maps to the same unauthorized class, so a
    /// caller cannot tell a missing account from a wrong password; only a
    /// corrupt stored hash is a server fault.
    pub open spec fn spec_status_code(&self) -> u16 {
        match self {
            AuthError::PasswordError(PasswordError::InvalidPasswordHash(_)) => (
            STATUS_INTERNAL_ERROR),
            _ => STATUS_UNAUTHORIZED,
        }
    }

    /// The status code of the external response for this error.
    pub fn status_code(&self) -> (r: u16)
        ensures
            r == self.spec_status_code(),
    {
        match self {
            AuthError::PasswordError(PasswordError::InvalidPasswordHash(_)) => (
            STATUS_INTERNAL_ERROR),
            _ => STATUS_UNAUTHORIZED,
        }
    }
}

/// Enumeration-resistance law: a login attempt for a missing account, one
/// for an account with no stored password, and one with a wrong password
/// all classify externally as the same unauthorized response, so a caller
/// cannot tell whether the account exists.
pub proof fn lemma_enumeration_resistance(identifier: String)
    ensures
        ({
            let missing_user = AuthError::NoUserFound(identifier);
            let missing_password = AuthError::PasswordError(PasswordError::NoPasswordFound);
            let wrong_password = AuthError::PasswordError(PasswordError::IncorrectPassword);
            &&& missing_user.spec_status_code() == wrong_password.spec_status_code()
            &&& missing_password.spec_status_code() == wrong_password.spec_status_code()
            &&& wrong_password.spec_status_code() == STATUS_UNAUTHORIZED
        }),
{
}

impl From<PasswordError> for AuthError {
    /// Folds a password failure into the authentication taxonomy.
    fn from(value: PasswordError) -> (r: AuthError) {
        AuthError::PasswordError(value)
    }
}

impl vstd::std_specs::convert::FromSpecImpl<PasswordError> for AuthError {
    open spec fn obeys_from_spec() -> bool {
        true
    }

    open spec fn from_spec(value: PasswordError) -> AuthError {
        AuthError::PasswordError(value)
    }
}

} // verus!
