//! A table of a restaurant.

use vstd::prelude::*;

verus! {

/// A dining table row, owned by one restaurant.
#[derive(Clone, Debug)]
pub struct DiningTable {
    pub id: String,
    pub name: String,
    pub restaurant_id: String,
}

/// The input for adding a table; the owning restaurant is derived from
/// the partner caller.
#[derive(Clone, Debug)]
pub struct NewDiningTable {
    pub name: String,
}

} // verus!
