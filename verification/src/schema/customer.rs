//! A diner's identity row.

use vstd::prelude::*;

verus! {

/// A customer identity as the relational store holds it; the optional
/// fields are filled in as the diner provides them.
#[derive(Clone, Debug)]
pub struct Customer {
    pub id: String,
    pub name: Option<String>,
    pub phone: Option<String>,
    pub email: Option<String>,
}

} // verus!
