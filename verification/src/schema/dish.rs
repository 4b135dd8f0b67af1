//! A dish on a restaurant's menu.

use vstd::prelude::*;

verus! {

/// A dish row, owned by one restaurant; the price is in minor units.
#[derive(Clone, Debug)]
pub struct Dish {
    pub id: String,
    pub name: String,
    pub description: String,
    pub price: i32,
    pub restaurant_id: String,
}

/// The input for adding a dish; the owning restaurant is derived from the
/// partner caller.
#[derive(Clone, Debug)]
pub struct NewDish {
    pub name: String,
    pub description: String,
    pub price: i32,
}

} // verus!
