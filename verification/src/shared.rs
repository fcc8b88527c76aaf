//! Taking one more strong reference to a shared owner.

use std::rc::Rc;
use std::sync::Arc;
use vstd::prelude::*;

verus! {

/// Calls `Arc::clone`: the result is one more strong reference to the very
/// value that `owner` points to. The value itself is not copied.
#[verifier::external_body]
pub(crate) fn share<T>(owner: &Arc<T>) -> (another: Arc<T>)
    ensures
        another == *owner,
{
    Arc::clone(owner)
}

/// Calls `Rc::clone`: the result is one more strong reference to the very
/// value that `owner` points to. The value itself is not copied.
#[verifier::external_body]
pub(crate) fn share_local<T>(owner: &Rc<T>) -> (another: Rc<T>)
    ensures
        another == *owner,
{
    Rc::clone(owner)
}

} // verus!
