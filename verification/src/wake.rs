//! The wake cell: the one piece of state that the polling side shares with
//! the thread on which the foreign callback runs.

use std::sync::Arc;
use vstd::prelude::*;

verus! {

/// `futures::task::AtomicWaker`, a thread-safe single-slot register of the
/// task to wake. Nothing of its contents is visible here.
#[verifier::external_type_specification]
#[verifier::external_body]
pub struct ExAtomicWaker(futures::task::AtomicWaker);

/// `std::task::Waker`, the wake target of a task. Nothing of its contents is
/// visible here.
#[verifier::external_type_specification]
#[verifier::external_body]
pub struct ExWaker(std::task::Waker);

/// Calls `AtomicWaker::new`, which makes a cell with no task registered.
/// Nothing is claimed of the cell.
#[verifier::external_body]
pub(crate) fn new_cell() -> (cell: futures::task::AtomicWaker) {
    futures::task::AtomicWaker::new()
}

/// Calls `AtomicWaker::register`, which puts `target` in the place of any
/// task registered before. The cell changes behind a shared reference, so
/// nothing is claimed here.
#[verifier::external_body]
pub(crate) fn register(cell: &Arc<futures::task::AtomicWaker>, target: &std::task::Waker) {
    cell.register(target)
}

/// Calls `AtomicWaker::wake`, which wakes the task registered last, if there
/// is one, and empties the cell. The effect is on the task, so nothing is
/// claimed here.
#[verifier::external_body]
pub(crate) fn wake(cell: &Arc<futures::task::AtomicWaker>) {
    cell.wake()
}

} // verus!
