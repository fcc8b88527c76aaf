//! The owner of one foreign completion resource.

use vstd::prelude::*;

verus! {

/// An opaque, non-null handle of one pending or completed foreign operation.
///
/// The handle carries a guard of type `R`: whatever has to live as long as
/// the foreign resource and to go with it, such as a value whose drop
/// destroys the resource. A handle is never copied, so the guard is dropped
/// once, when the last owner of the handle goes; destroying a pending
/// operation cancels it.
#[derive(Debug)]
pub struct FdbFutureHandle<R> {
    raw: usize,
    guard: R,
}

impl<R> FdbFutureHandle<R> {
    #[verifier::type_invariant]
    spec fn non_null(self) -> bool {
        self.raw != 0
    }

    /// The address of the foreign resource.
    pub closed spec fn addr(&self) -> usize {
        self.raw
    }

    /// The guard that goes with the resource.
    pub closed spec fn held(&self) -> R {
        self.guard
    }

    /// Takes ownership of the foreign resource at `raw`, which must not be
    /// null, and of its guard.
    pub fn new(raw: usize, guard: R) -> (h: Self)
        requires
            raw != 0,
        ensures
            h.addr() == raw,
            h.held() == guard,
    {
        FdbFutureHandle { raw, guard }
    }

    /// The address of the foreign resource, which is never null.
    pub fn as_ptr(&self) -> (p: usize)
        ensures
            p == self.addr(),
            p != 0,
    {
        proof {
            use_type_invariant(self);
        }
        self.raw
    }

    /// The guard, read in place.
    pub fn guard(&self) -> (g: &R)
        ensures
            *g == self.held(),
    {
        &self.guard
    }
}

} // verus!
