//! A device a diner connects from.

use vstd::prelude::*;

verus! {

/// A device row, optionally tied to a customer identity.
#[derive(Clone, Debug)]
pub struct DeviceInfo {
    pub id: String,
    pub customer_id: Option<String>,
    pub user_agent: Option<String>,
}

} // verus!
