//! The completion bridge: the decisions of a future that is driven by the
//! readiness of one foreign operation.
//!
//! The bridge never talks to the foreign side itself. Whoever drives it asks
//! the foreign side whether the operation is ready, tells the bridge, and
//! does what the bridge answers.

use crate::error::{eval, FdbError};
use crate::handle::FdbFutureHandle;
use crate::shared::share;
use crate::wake::{new_cell, register, wake};
use futures::task::AtomicWaker;
use std::sync::Arc;
use std::task::Waker;
use vstd::prelude::*;

verus! {

/// Where a bridge stands.
#[derive(Clone, Copy, Debug, PartialEq, Eq, Structural)]
pub enum BridgeState {
    /// The resource is held and no wake cell exists yet.
    Unregistered,
    /// The resource is held and the foreign callback has been asked for.
    Registered,
    /// The resource has been handed on; the bridge must not be polled again.
    Resolved,
}

/// What the foreign side answers when asked about the operation.
#[derive(Clone, Copy, Debug, PartialEq, Eq, Structural)]
pub enum Readiness {
    /// The operation has not completed.
    NotReady,
    /// The operation has completed with this status code.
    Ready(i32),
}

/// What a poll decides.
#[derive(Clone, Copy, Debug, PartialEq, Eq, Structural)]
pub enum Decision {
    /// Suspend, and install the foreign callback.
    Install,
    /// Suspend; the callback is installed already.
    Wait,
    /// Resolve to the error with this code; the resource stays where it is.
    Fail(i32),
    /// Hand the resource to the extractor.
    Extract,
}

/// The decision of a poll in state `s` on the answer `answer`.
pub open spec fn decide(s: BridgeState, answer: Readiness) -> Decision {
    match answer {
        Readiness::NotReady => if s == BridgeState::Unregistered {
            Decision::Install
        } else {
            Decision::Wait
        },
        Readiness::Ready(status) => if status == 0 {
            Decision::Extract
        } else {
            Decision::Fail(status)
        },
    }
}

/// The state after a poll in state `s` on the answer `answer`.
pub open spec fn step(s: BridgeState, answer: Readiness) -> BridgeState {
    match decide(s, answer) {
        Decision::Install | Decision::Wait => BridgeState::Registered,
        Decision::Fail(_) => s,
        Decision::Extract => BridgeState::Resolved,
    }
}

/// The state after a run of polls, first to last.
pub open spec fn run(s: BridgeState, answers: Seq<Readiness>) -> BridgeState
    decreases answers.len(),
{
    if answers.len() == 0 {
        s
    } else {
        run(step(s, answers[0]), answers.skip(1))
    }
}

/// However many polls a pending bridge has seen, as long as none of them
/// found a successful completion it is still pending, and so still holds
/// the resource that goes when the bridge goes.
pub proof fn lemma_pending_until_success(s: BridgeState, answers: Seq<Readiness>)
    requires
        s != BridgeState::Resolved,
        forall|k: int| 0 <= k < answers.len() ==> answers[k] != Readiness::Ready(0),
    ensures
        run(s, answers) != BridgeState::Resolved,
    decreases answers.len(),
{
    if answers.len() > 0 {
        lemma_pending_until_success(step(s, answers[0]), answers.skip(1));
    }
}

/// The callback is asked for by the first poll that finds the operation not
/// ready, and by no later one.
pub proof fn lemma_install_once(s: BridgeState, first: Readiness, later: Readiness)
    requires
        decide(s, first) == Decision::Install,
    ensures
        decide(step(s, first), later) != Decision::Install,
{
}

/// What a poll hands to whoever drives the bridge.
pub enum Polled<R> {
    /// Suspend. The wake cell was made by this poll: the foreign callback is
    /// to be installed, with this strong reference to the cell as its context.
    Install(Arc<AtomicWaker>),
    /// Suspend. The callback was asked for by an earlier poll.
    Pending,
    /// The operation completed with an error.
    Failed(FdbError),
    /// The operation completed: the resource goes to the extractor of the
    /// shape that was asked for.
    Ready(FdbFutureHandle<R>),
}

impl<R> Polled<R> {
    /// The decision that this outcome carries out.
    pub open spec fn decision(&self) -> Decision {
        match self {
            Polled::Install(_) => Decision::Install,
            Polled::Pending => Decision::Wait,
            Polled::Failed(e) => Decision::Fail(e@),
            Polled::Ready(_) => Decision::Extract,
        }
    }
}

/// A pending foreign operation, to be polled until it resolves.
pub struct FdbFuture<R> {
    f: Option<FdbFutureHandle<R>>,
    waker: Option<Arc<AtomicWaker>>,
}

impl<R> FdbFuture<R> {
    /// Where the bridge stands.
    pub closed spec fn state(&self) -> BridgeState {
        if self.f is None {
            BridgeState::Resolved
        } else if self.waker is None {
            BridgeState::Unregistered
        } else {
            BridgeState::Registered
        }
    }

    /// The address of the resource that the bridge holds, while it holds one.
    pub closed spec fn resource(&self) -> Option<usize> {
        match self.f {
            Some(h) => Some(h.addr()),
            None => None,
        }
    }

    /// The guard of the resource that the bridge holds, while it holds one.
    pub closed spec fn guard(&self) -> Option<R> {
        match self.f {
            Some(h) => Some(h.held()),
            None => None,
        }
    }

    /// The wake cell, once there is one.
    pub closed spec fn cell(&self) -> Option<Arc<AtomicWaker>> {
        self.waker
    }

    /// The bridge over the foreign operation at `f`, which must not be null,
    /// with the guard that goes with the resource.
    pub fn new(f: usize, guard: R) -> (fut: Self)
        requires
            f != 0,
        ensures
            fut.state() == BridgeState::Unregistered,
            fut.resource() == Some(f),
            fut.guard() == Some(guard),
    {
        FdbFuture { f: Some(FdbFutureHandle::new(f, guard)), waker: None }
    }

    /// The address to ask the foreign side about, while the bridge is
    /// pending.
    pub fn as_ptr(&self) -> (p: Option<usize>)
        ensures
            p == self.resource(),
            p is None <==> self.state() == BridgeState::Resolved,
            p != Some(0usize),
    {
        match &self.f {
            Some(h) => Some(h.as_ptr()),
            None => None,
        }
    }

    /// Whether the resource has been handed on, so that no poll may follow.
    pub fn is_resolved(&self) -> (done: bool)
        ensures
            done == (self.state() == BridgeState::Resolved),
    {
        self.f.is_none()
    }

    /// Whether the foreign callback has been asked for.
    pub fn is_registered(&self) -> (registered: bool)
        ensures
            registered == self.cell() is Some,
            self.state() == BridgeState::Registered ==> registered,
            self.state() == BridgeState::Unregistered ==> !registered,
    {
        self.waker.is_some()
    }

    /// One poll, on what the foreign side answered for the resource.
    ///
    /// Not ready: `target` is registered in the wake cell, replacing whatever
    /// was registered before; the first such poll makes the cell and asks for
    /// the callback to be installed. Ready with an error status: the error,
    /// and the bridge stays as it was. Ready with success: the resource leaves
    /// the bridge, which is resolved from then on.
    ///
    /// A resolved bridge must not be polled.
    pub fn poll(&mut self, target: &Waker, answer: Readiness) -> (r: Polled<R>)
        requires
            old(self).state() != BridgeState::Resolved,
        ensures
            r.decision() == decide(old(self).state(), answer),
            final(self).state() == step(old(self).state(), answer),
            final(self).resource() == (if r is Ready {
                None
            } else {
                old(self).resource()
            }),
            final(self).guard() == (if r is Ready {
                None
            } else {
                old(self).guard()
            }),
            r matches Polled::Ready(h) ==> Some(h.addr()) == old(self).resource() && Some(h.held())
                == old(self).guard(),
            r matches Polled::Install(lent) ==> Some(lent) == final(self).cell(),
            !(r is Install) ==> final(self).cell() == old(self).cell(),
    {
        match answer {
            Readiness::NotReady => {
                if self.waker.is_none() {
                    let cell = Arc::new(new_cell());
                    register(&cell, target);
                    let lent = share(&cell);
                    self.waker = Some(cell);
                    Polled::Install(lent)
                } else {
                    register(self.waker.as_ref().unwrap(), target);
                    Polled::Pending
                }
            },
            Readiness::Ready(status) => {
                match eval(status) {
                    Err(e) => Polled::Failed(e),
                    Ok(()) => Polled::Ready(self.f.take().unwrap()),
                }
            },
        }
    }

    /// Takes the bridge apart. While it is pending this yields the resource,
    /// whose drop cancels the operation; once resolved there is nothing left
    /// to yield.
    pub fn into_handle(self) -> (r: Option<FdbFutureHandle<R>>)
        ensures
            r is Some <==> self.state() != BridgeState::Resolved,
            r matches Some(h) ==> Some(h.addr()) == self.resource() && Some(h.held())
                == self.guard(),
    {
        self.f
    }
}

/// What the foreign side calls, once, when the operation completes: takes
/// back the strong reference to the wake cell that was lent as the callback's
/// context, wakes the task registered there last, and lets the reference go.
pub fn fdb_future_callback(network_waker: Arc<AtomicWaker>) {
    wake(&network_waker);
}

} // verus!
