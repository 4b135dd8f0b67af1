//! The input for registering a restaurant.

use vstd::prelude::*;

verus! {

/// What an administrator supplies to create a restaurant.
#[derive(Clone, Debug)]
pub struct NewRestaurant {
    pub name: String,
    pub address: String,
    pub logo: String,
    pub cover: String,
    pub location_url: String,
}

} // verus!
