//! A restaurant operator's identity row and sign-up/sign-in inputs.

use vstd::prelude::*;

verus! {

/// A partner identity as the relational store holds it, tied to the
/// restaurant the partner operates.
#[derive(Clone, Debug)]
pub struct Partner {
    pub id: String,
    pub name: String,
    pub username: String,
    pub restaurant_id: String,
    pub picture: String,
    pub phone: String,
    pub email: String,
    pub is_active: bool,
}

/// What a new partner supplies at sign-up; the password is hashed before
/// it is stored.
#[derive(Clone, Debug)]
pub struct NewPartner {
    pub name: String,
    pub username: String,
    pub password: String,
    pub restaurant_id: String,
    pub picture: String,
    pub phone: String,
    pub email: String,
}

/// A partner's sign-in credentials.
#[derive(Clone, Debug)]
pub struct PartnerSignIn {
    pub username: String,
    pub password: String,
}

} // verus!
