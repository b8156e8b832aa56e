//! Password hashing and the auth service abstraction.

use crate::bearer::BearerToken;
use crate::error::AuthError;
use crate::time::ExpirationTime;
use argon2::password_hash::SaltString;
use argon2::{Argon2, PasswordHash, PasswordHasher, PasswordVerifier};
use vstd::prelude::*;

verus! {

/// Used for confirming that a bearer token is valid. The guard depends on
/// this capability alone, so validation can be done by the in-process
/// authenticator or forwarded to a remote authority.
pub trait AuthService {
    /// What validation returns for a token at a given instant.
    spec fn validate_spec(&self, token: Seq<u8>, now_millis: u64) -> Result<
        ExpirationTime,
        AuthError,
    >;

    /// Validates a bearer token at the instant `now`. If valid, the
    /// expiration time is returned; otherwise, an auth error.
    fn validate_token(&self, token: &BearerToken, now: ExpirationTime) -> (r: Result<
        ExpirationTime,
        AuthError,
    >)
        ensures
            r == self.validate_spec(token@, now.millis),
    ;
}

/// Whether the stored record is a readable, self-describing password hash
/// record (algorithm tag, cost parameters, salt and digest in one string).
pub uninterp spec fn argon2_record_ok(record: Seq<char>) -> bool;

/// Whether a password agrees with a stored hash record: the record is
/// readable and the digest recomputed from the password with the record's
/// own salt and parameters equals the record's digest.
pub uninterp spec fn argon2_matches(password: Seq<u8>, record: Seq<char>) -> bool;

/// What checking a password against a stored record can find.
enum HashCheck {
    /// The record is readable and the password agrees with it.
    Match,
    /// The record is readable but the password does not agree with it.
    Mismatch,
    /// The record is not a readable hash record; the text says why.
    Unreadable(String),
}

/// Relies on `argon2::PasswordHash::new` to read the record and
/// `Argon2::verify_password` to recompute the digest with the record's
/// embedded salt and parameters and compare in constant time.
#[verifier::external_body]
fn argon2_check(password: &[u8], record: &str) -> (r: HashCheck)
    ensures
        (argon2_record_ok(record@) && argon2_matches(password@, record@)) <==> r is Match,
        (argon2_record_ok(record@) && !argon2_matches(password@, record@)) <==> r is Mismatch,
        !argon2_record_ok(record@) <==> r is Unreadable,
{
    match PasswordHash::new(record) {
        Err(e) => HashCheck::Unreadable(e.to_string()),
        Ok(ref parsed) => match Argon2::default().verify_password(password, parsed) {
            Ok(()) => HashCheck::Match,
            Err(_) => HashCheck::Mismatch,
        },
    }
}

/// Relies on `SaltString::generate` for a fresh random salt and
/// `Argon2::hash_password` for the digest: a record it produces is
/// readable and agrees with the password it was made from, and with the
/// generated salt and default parameters hashing fails only for a
/// password longer than `u32::MAX` bytes. The salt is random, so nothing
/// relates the records of two calls.
#[verifier::external_body]
fn argon2_hash_with_fresh_salt(password: &[u8]) -> (r: Result<String, String>)
    ensures
        r is Ok ==> argon2_record_ok(r->Ok_0@) && argon2_matches(password@, r->Ok_0@),
        password@.len() <= u32::MAX ==> r is Ok,
{
    let salt = SaltString::generate(rand::thread_rng());
    match Argon2::default().hash_password(password, &salt) {
        Ok(hashed) => Ok(hashed.to_string()),
        Err(e) => Err(e.to_string()),
    }
}

/// The password hash factory. Every hash draws a fresh random salt; a
/// single salt shared across passwords is not offered, since it would
/// defeat the purpose of salting.
#[derive(Debug, Clone, Copy)]
pub struct PasswordAuth {}

impl PasswordAuth {
    /// Creates a new password auth with a random salt value generated for
    /// every password.
    pub fn new() -> (r: PasswordAuth) {
        PasswordAuth {  }
    }

    /// Hashes a password into a self-describing record: algorithm tag,
    /// cost parameters, the fresh salt and the digest, as one string.
    /// Success is owed for every password that fits the hash function's
    /// input bound.
    pub fn hash_password(&self, password: &[u8]) -> (r: Result<String, PasswordError>)
        ensures
            r is Ok ==> argon2_record_ok(r->Ok_0@) && argon2_matches(password@, r->Ok_0@),
            password@.len() <= u32::MAX ==> r is Ok,
            r is Err ==> r->Err_0 is InvalidPasswordHash,
    {
        match argon2_hash_with_fresh_salt(password) {
            Ok(record) => Ok(record),
            Err(why) => Err(PasswordError::InvalidPasswordHash(why)),
        }
    }

    /// Verifies a password against a stored hash record: `Ok` exactly when
    /// the record is readable and the password agrees with it,
    /// `IncorrectPassword` exactly when it is readable and the password
    /// does not, and `InvalidPasswordHash` exactly when it is unreadable.
    pub fn verify_password(&self, password: &[u8], hash: &str) -> (r: Result<(), PasswordError>)
        ensures
            r is Ok <==> (argon2_record_ok(hash@) && argon2_matches(password@, hash@)),
            (r is Err && r->Err_0 is IncorrectPassword) <==> (argon2_record_ok(hash@)
                && !argon2_matches(password@, hash@)),
            (r is Err && r->Err_0 is InvalidPasswordHash) <==> !argon2_record_ok(hash@),
    {
        match argon2_check(password, hash) {
            HashCheck::Match => Ok(()),
            HashCheck::Mismatch => Err(PasswordError::IncorrectPassword),
            HashCheck::Unreadable(why) => Err(PasswordError::InvalidPasswordHash(why)),
        }
    }
}

/// The password-verification outcome owed for a password and a record:
/// success exactly when the record is readable and the password agrees
/// with it.
pub open spec fn spec_password_accepted(password: Seq<u8>, record: Seq<char>) -> bool {
    argon2_record_ok(record) && argon2_matches(password, record)
}

/// Password round-trip law: a record that `hash_password` produced for a
/// password (readable and in agreement with it) is accepted when that same
/// password is verified against it.
pub proof fn lemma_password_round_trip(password: Seq<u8>, record: Seq<char>)
    requires
        argon2_record_ok(record),
        argon2_matches(password, record),
    ensures
        spec_password_accepted(password, record),
{
}

/// An error occurred with passwords.
#[derive(Debug)]
pub enum PasswordError {
    /// The given password is wrong.
    IncorrectPassword,
    /// The stored hash record is malformed; the text says why.
    InvalidPasswordHash(String),
    /// No password was found for the subject.
    NoPasswordFound,
}

} // verus!
