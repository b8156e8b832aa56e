//! The user record as the authentication core sees it. Storage of user
//! records belongs to a collaborator; here a user is the plain values the
//! auth logic reads: a numeric id, an email identifier and a username.

use crate::auth::{argon2_matches, argon2_record_ok, PasswordAuth, PasswordError};
use crate::User;
use vstd::prelude::*;
use vstd::string::StringSliceAdditionalSpecFns;

verus! {

/// User with only public info exposed.
#[derive(Debug)]
pub struct PublicUser {
    /// The storage id of the record; `0` for a record not yet stored.
    pub id: i64,
    /// The stable email identifier.
    pub email: String,
    /// The display name.
    pub username: String,
}

impl PublicUser {
    /// A user record from its public fields.
    pub fn new(email: String, username: String) -> (r: PublicUser)
        ensures
            r.id == 0,
            r.email@ == email@,
            r.username@ == username@,
    {
        PublicUser { id: 0, email, username }
    }

    /// Verifies a password against this user's stored hash record, if one
    /// was stored: `NoPasswordFound` when there is none, and otherwise the
    /// verdict of checking the password against the record.
    pub fn verify_password(&self, stored_hash: Option<&String>, auth: &PasswordAuth, pass: &str) -> (r:
        Result<(), PasswordError>)
        ensures
            stored_hash is None <==> (r is Err && r->Err_0 is NoPasswordFound),
            stored_hash is Some ==> {
                let record = stored_hash->0@;
                &&& (r is Ok <==> (argon2_record_ok(record) && argon2_matches(
                    pass.spec_bytes(),
                    record,
                )))
                &&& ((r is Err && r->Err_0 is IncorrectPassword) <==> (argon2_record_ok(record)
                    && !argon2_matches(pass.spec_bytes(), record)))
                &&& ((r is Err && r->Err_0 is InvalidPasswordHash) <==> !argon2_record_ok(record))
            },
    {
        match stored_hash {
            None => Err(PasswordError::NoPasswordFound),
            Some(record) => auth.verify_password(pass.as_bytes(), record.as_str()),
        }
    }
}

impl User for PublicUser {
    open spec fn spec_username(&self) -> Seq<char> {
        self.username@
    }

    open spec fn spec_email(&self) -> Seq<char> {
        self.email@
    }

    fn username(&self) -> (r: &str) {
        self.username.as_str()
    }

    fn set_username(&mut self, name: &str) {
        self.username = name.to_owned();
    }

    fn email(&self) -> (r: String) {
        self.email.clone()
    }
}

} // verus!
