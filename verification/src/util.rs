//! Helpers for values shared through `Arc`.

use std::sync::Arc;
use vstd::prelude::*;

verus! {

/// `Arc::ptr_eq`: whether two handles point to the same allocation.
///
/// Nothing is proved of this function. Which allocations two handles point to
/// is not part of their values, so the contract claims only what follows from
/// a `true` answer: one allocation holds one value.
#[verifier::external_body]
pub(crate) fn arc_ptr_eq<T: ?Sized>(a: &Arc<T>, b: &Arc<T>) -> (same: bool)
    ensures
        same ==> *a == *b,
{
    Arc::ptr_eq(a, b)
}

/// `Arc::clone`: another handle to the same allocation.
///
/// Nothing is proved of this function. The contract claims that the new handle
/// holds the value of the old one.
#[verifier::external_body]
pub(crate) fn arc_share<T: ?Sized>(a: &Arc<T>) -> (shared: Arc<T>)
    ensures
        shared == *a,
{
    Arc::clone(a)
}

/// Compares two optional `Arc`s by address.
///
/// Returns `true` if both are `None`, or if both are `Some` and the two `Arc`s
/// point to the same allocation.
pub fn option_ptr_eq<T: ?Sized>(a: &Option<Arc<T>>, b: &Option<Arc<T>>) -> (same: bool)
    ensures
        (a is None && b is None) ==> same,
        (a is None) != (b is None) ==> !same,
        same ==> *a == *b,
{
    match (a, b) {
        (None, None) => true,
        (Some(a), Some(b)) => arc_ptr_eq(a, b),
        _ => false,
    }
}

} // verus!
