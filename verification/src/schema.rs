//! The data rows and input values exchanged with the resolver layer.
//!
//! These are the mechanical row shapes of the ordering domain. The
//! resolver layer maps them to and from the relational store; the core in
//! this crate only gates who may do so.

pub mod customer;
pub mod customer_order;
pub mod device_info;
pub mod dining_table;
pub mod dish;
pub mod dish_order;
pub mod mutation;
pub mod new_restaurant;
pub mod partner;
pub mod query;
pub mod restaurant;
