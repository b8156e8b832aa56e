//! The decisions behind the user-facing actions: creating a user record
//! and logging in. Storage and transport belong to collaborators; these
//! functions take the stored values as arguments and decide.

use crate::auth::{argon2_matches, argon2_record_ok, PasswordAuth, PasswordError};
use crate::authenticator::{spec_issue_token, Authenticator};
use crate::bearer::BearerToken;
use crate::error::AuthError;
use crate::time::{spec_add_duration, Duration, ExpirationTime};
use crate::user::PublicUser;
use vstd::prelude::*;
use vstd::string::StringSliceAdditionalSpecFns;
use vstd::string::StrSliceExecFns;

verus! {

/// Why a user record could not be made.
#[derive(Debug)]
pub enum CreateUserError {
    /// The username holds a character a username may not.
    UsernameNotAcceptable,
    /// The password could not be hashed.
    Password(PasswordError),
}

/// What is stored for a newly created user.
#[derive(Debug)]
pub struct NewUserRecord {
    /// The stable email identifier.
    pub email: String,
    /// The display name; never holds `@`.
    pub username: String,
    /// The self-describing hash record of the user's password.
    pub password_hash: String,
}

/// Whether a character sequence holds `@` anywhere.
pub open spec fn spec_contains_at(s: Seq<char>) -> bool {
    exists|i: int| 0 <= i < s.len() && s[i] == '@'
}

/// Whether the text holds an `@`.
fn contains_at(s: &str) -> (r: bool)
    ensures
        r == spec_contains_at(s@),
{
    let n = s.unicode_len();
    let mut i: usize = 0;
    while i < n
        invariant
            n == s@.len(),
            0 <= i <= n,
            forall|j: int| 0 <= j < i ==> s@[j] != '@',
        decreases n - i,
    {
        if s.get_char(i) == '@' {
            return true;
        }
        i += 1;
    }
    false
}

/// Decides a user-creation request: a username holding `@` is rejected,
/// and otherwise the password is hashed with a fresh salt and the record
/// to store is assembled. Success is owed whenever the username is
/// acceptable and the password fits the hash function's input bound.
pub fn create_user(email: String, username: String, password: &str, passwords: &PasswordAuth)
    -> (r: Result<NewUserRecord, CreateUserError>)
    ensures
        (r is Err && r->Err_0 is UsernameNotAcceptable) <==> spec_contains_at(username@),
        r is Err ==> (r->Err_0 is UsernameNotAcceptable || r->Err_0 is Password),
        !spec_contains_at(username@) && password.spec_bytes().len() <= u32::MAX ==> r is Ok,
        r is Ok ==> {
            &&& r->Ok_0.email@ == email@
            &&& r->Ok_0.username@ == username@
            &&& argon2_record_ok(r->Ok_0.password_hash@)
            &&& argon2_matches(password.spec_bytes(), r->Ok_0.password_hash@)
        },
{
    if contains_at(username.as_str()) {
        return Err(CreateUserError::UsernameNotAcceptable);
    }
    match passwords.hash_password(password.as_bytes()) {
        Err(e) => Err(CreateUserError::Password(e)),
        Ok(password_hash) => Ok(NewUserRecord { email, username, password_hash }),
    }
}

/// Decides a login attempt against what storage found for the identifier:
/// no user yields `NoUserFound`; a user without a stored hash yields
/// `NoPasswordFound`; a readable hash the password does not agree with
/// yields `IncorrectPassword`; an unreadable hash yields
/// `InvalidPasswordHash`; and a user whose stored hash agrees with the
/// password is issued a token good for `ttl` measured from `now`.
pub fn login_user(
    auth: &Authenticator,
    passwords: &PasswordAuth,
    identifier: &str,
    user: Option<PublicUser>,
    stored_hash: Option<String>,
    password: &str,
    ttl: Duration,
    now: ExpirationTime,
) -> (r: Result<(BearerToken, PublicUser), AuthError>)
    ensures
        user is None <==> (r is Err && r->Err_0 is NoUserFound && r->Err_0->NoUserFound_0@
            == identifier@),
        user is Some && stored_hash is None <==> (r is Err && r->Err_0 is PasswordError
            && r->Err_0->PasswordError_0 is NoPasswordFound),
        user is Some && stored_hash is Some ==> {
            let record = stored_hash->0@;
            &&& (r is Ok <==> (argon2_record_ok(record) && argon2_matches(
                password.spec_bytes(),
                record,
            )))
            &&& ((r is Err && r->Err_0 is PasswordError
                && r->Err_0->PasswordError_0 is IncorrectPassword) <==> (argon2_record_ok(record)
                && !argon2_matches(password.spec_bytes(), record)))
            &&& ((r is Err && r->Err_0 is PasswordError
                && r->Err_0->PasswordError_0 is InvalidPasswordHash) <==> !argon2_record_ok(
                record,
            ))
        },
        r is Ok ==> {
            &&& user is Some
            &&& r->Ok_0.1 == user->0
            &&& r->Ok_0.0@ == spec_issue_token(
                auth.spec_key(),
                user->0.email@,
                spec_add_duration(now.millis, ttl.millis),
            )
        },
{
    let found = match user {
        None => {
            return Err(AuthError::NoUserFound(identifier.to_owned()));
        },
        Some(u) => u,
    };
    match found.verify_password(stored_hash.as_ref(), passwords, password) {
        Err(e) => Err(AuthError::PasswordError(e)),
        Ok(()) => {
            let token = auth.create_token_at(&found, ttl, now);
            Ok((token, found))
        },
    }
}

} // verus!
