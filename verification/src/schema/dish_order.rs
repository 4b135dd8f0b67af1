//! One dish within a customer's order.

use vstd::prelude::*;

verus! {

/// A dish-order row: a dish, the order it belongs to, an optional note to
/// the kitchen, and how many were asked for.
#[derive(Clone, Debug)]
pub struct DishOrder {
    pub id: String,
    pub dish_id: String,
    pub customer_order_id: String,
    pub note: Option<String>,
    pub quantity: i32,
}

/// The input for adding a dish to an order.
#[derive(Clone, Debug)]
pub struct NewDishOrder {
    pub dish_id: String,
    pub customer_order_id: String,
    pub note: Option<String>,
    pub quantity: i32,
}

} // verus!
