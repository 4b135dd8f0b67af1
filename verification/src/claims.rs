//! The decoded payload of a session token.

use vstd::prelude::*;

use crate::roles::Roles;

verus! {

/// What a verified session token asserts about its bearer: the stable
/// subject identifier, the issuing organisation, the absolute expiry
/// timestamp (seconds), and the granted role. Immutable once encoded into
/// a token.
#[derive(Clone, Debug)]
pub struct Claims {
    pub sub: String,
    pub company: String,
    pub exp: i64,
    pub role: Roles,
}

} // verus!
