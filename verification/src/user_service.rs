//! Used to define an authenticated user interaction. The user service
//! itself — logging in against a remote authority — lives with the
//! transport; what the core needs is the credential an authenticated
//! user carries.

use crate::bearer::BearerToken;
use crate::User;
use vstd::prelude::*;

verus! {

/// An authenticated user: a user together with the bearer token that was
/// issued for them.
pub trait AuthenticatedUser<U: User> {
    /// The bearer token.
    fn bearer(&self) -> &BearerToken;
}

} // verus!
