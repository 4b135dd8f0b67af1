//! The root of the mutating operations.

use vstd::prelude::*;

verus! {

/// The anchor the resolver layer hangs the mutating operations on; each
/// operation authorizes through the security context before it writes.
#[derive(Clone, Copy, Debug)]
pub struct Mutation;

} // verus!
