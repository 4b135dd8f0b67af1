//! A restaurant row.

use vstd::prelude::*;

verus! {

/// A restaurant as the relational store holds it.
#[derive(Clone, Debug)]
pub struct Restaurant {
    pub id: String,
    pub name: String,
    pub address: String,
    pub logo: String,
    pub cover: String,
    pub location_url: String,
}

/// What an administrator supplies to create a restaurant.
#[derive(Clone, Debug)]
pub struct NewRestaurant {
    pub name: String,
    pub address: String,
    pub logo: String,
    pub cover: String,
    pub location_url: String,
}

} // verus!
