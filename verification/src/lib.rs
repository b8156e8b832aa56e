//! Token-based authentication: salted password hashing, signed bearer
//! tokens with an expiration, a validation cache with a guard, and the
//! service abstraction that lets the guard talk to a local or remote
//! authenticator.

use vstd::prelude::*;

pub mod actions;
pub mod auth;
pub mod authenticator;
pub mod bearer;
pub mod cli;
pub mod error;
pub mod guard;
pub mod header;
pub mod time;
pub mod tokens;
pub mod user;
pub mod user_service;
pub mod utils;

verus! {

/// A user as the authentication core sees one: a display name and a
/// stable email identifier.
pub trait User {
    /// The username, as a mathematical value.
    spec fn spec_username(&self) -> Seq<char>;

    /// The email identifier, as a mathematical value.
    spec fn spec_email(&self) -> Seq<char>;

    /// Gets the username of the user.
    fn username(&self) -> (r: &str)
        ensures
            r@ == self.spec_username(),
    ;

    /// Sets the username of this user.
    fn set_username(&mut self, name: &str)
        ensures
            final(self).spec_username() == name@,
            final(self).spec_email() == old(self).spec_email(),
    ;

    /// Gets the email of the user.
    fn email(&self) -> (r: String)
        ensures
            r@ == self.spec_email(),
    ;
}

} // verus!
