//! Shared ownership of the handle that keeps a future's memory alive.
//!
//! The handle type `H` is the caller's: the crate never looks inside it, it
//! only keeps it alive. Its release is whatever dropping `H` does, and that
//! happens when the last owner goes: the array, or the last row that was
//! taken out of it.
use std::rc::Rc;
use std::sync::Arc;
use vstd::prelude::*;

verus! {

/// `Rc::clone`: one more pointer to the same allocation. The contract claims
/// that the new pointer holds the value that `f` holds.
#[verifier::external_body]
pub(crate) fn share_rc<H>(f: &Rc<H>) -> (r: Rc<H>)
    ensures
        r == *f,
{
    Rc::clone(f)
}

/// `Arc::clone`: one more pointer to the same allocation. The contract
/// claims that the new pointer holds the value that `f` holds.
#[verifier::external_body]
pub(crate) fn share_arc<H>(f: &Arc<H>) -> (r: Arc<H>)
    ensures
        r == *f,
{
    Arc::clone(f)
}

} // verus!
