//! A diner's order and its lifecycle state.

use vstd::prelude::*;

verus! {

/// Where an order stands: still open for additions, closed for payment,
/// or fully served.
#[derive(Clone, Copy, Debug, PartialEq, Eq, Structural)]
pub enum CustomerOrderStatus {
    Open,
    Closed,
    Done,
}

/// One order a customer runs at a dining table of a restaurant.
#[derive(Clone, Debug)]
pub struct CustomerOrder {
    pub id: String,
    pub restaurant_id: String,
    pub dining_table_id: String,
    pub customer_id: String,
    pub status: CustomerOrderStatus,
}

/// The input for opening a new order at a table.
#[derive(Clone, Debug)]
pub struct NewCustomerOrder {
    pub dining_table_id: String,
}

} // verus!
