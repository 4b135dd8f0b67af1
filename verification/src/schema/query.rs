//! The root of the read-only operations.

use vstd::prelude::*;

verus! {

/// The anchor the resolver layer hangs the read-only operations on; the
/// role-restricted reads authorize through the security context first.
#[derive(Clone, Copy, Debug)]
pub struct Query;

} // verus!
