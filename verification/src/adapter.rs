//! The polling adapter: wraps a suspendable stepwise computation and
//! presents a single `poll` operation over it.
//!
//! `poll` installs the driver's wake handle in the ambient context slot,
//! advances the computation by one resumption, restores the slot, and maps
//! the resumption's outcome to pending/ready.

use vstd::prelude::*;

use crate::context::ContextSlot;
use crate::context::TaskError;
use crate::context::WakeHandle;

verus! {

/// What one resumption of a suspendable computation reports: paused again,
/// or finished with its final value.
#[derive(Debug, PartialEq, Eq)]
pub enum ResumeOutcome<V> {
    /// The computation paused; it expects to be resumed again later.
    Yielded,
    /// The computation finished with this value; it must never be resumed
    /// again.
    Completed(V),
}

/// What one `poll` of an adapter reports to the driver.
#[derive(Debug, PartialEq, Eq)]
pub enum PollResult<V> {
    /// The wrapped computation paused; poll again when woken.
    Pending,
    /// The wrapped computation finished with this value.
    Ready(V),
}

/// The resumption outcome that a poll report stands for.
pub open spec fn outcome_of<V>(report: PollResult<V>) -> ResumeOutcome<V> {
    match report {
        PollResult::Pending => ResumeOutcome::Yielded,
        PollResult::Ready(v) => ResumeOutcome::Completed(v),
    }
}

/// A suspendable stepwise computation: an opaque state machine advanced one
/// step at a time by `resume`.
///
/// `done` tells whether the machine has already finished; `step` is the
/// machine's own transition relation, relating the state before a
/// resumption, the state after it, the ambient context the resumption
/// observed, and the outcome it reported.  The relation is what lets a
/// caller of the adapter reason about a particular computation through the
/// adapter's uniform contract.
pub trait ResumableComputation: Sized {
    /// The type of the final value the computation finishes with.
    type Output;

    /// Whether the computation has finished.
    spec fn done(self) -> bool;

    /// The computation's transition relation: one resumption taking `pre`
    /// to `post` under ambient context `ctx` reported `outcome`.
    spec fn step(
        pre: Self,
        post: Self,
        ctx: Option<WakeHandle>,
        outcome: ResumeOutcome<Self::Output>,
    ) -> bool;

    /// Advance the computation by one step.
    ///
    /// Must never be called once the computation has finished.  The slot is
    /// the ambient channel the resumption may read its wake handle from; a
    /// resumption leaves the slot as it found it, so installs made by the
    /// caller survive the call.
    fn resume(&mut self, slot: &mut ContextSlot) -> (outcome: ResumeOutcome<Self::Output>)
        requires
            !old(self).done(),
        ensures
            Self::step(*old(self), *final(self), old(slot)@, outcome),
            (outcome is Completed) == final(self).done(),
            final(slot)@ == old(slot)@,
    ;
}

/// The adapter: owns one suspendable computation for its whole lifetime and
/// drives it through the ambient context channel.
///
/// The computation is held by value and never handed out by value again
/// while polling goes on, so its address-stability is the adapter's
/// ownership discipline; the state split mirrors the two adapter states,
/// active and completed.
pub struct GenFuture<T: ResumableComputation> {
    computation: T,
    completed: bool,
}

impl<T: ResumableComputation> GenFuture<T> {
    /// The wrapped computation's current state.
    pub closed spec fn computation(self) -> T {
        self.computation
    }

    /// Whether the adapter has reported ready and reached its terminal
    /// state.
    pub closed spec fn is_completed(self) -> bool {
        self.completed
    }

    /// The adapter's invariant: it is in its terminal state exactly when
    /// the wrapped computation has finished.
    pub open spec fn wf(self) -> bool {
        self.is_completed() == self.computation().done()
    }

    /// Advance the wrapped computation by one resumption, with `handle`
    /// installed as the ambient context for exactly the duration of that
    /// resumption.
    ///
    /// Reports `Pending` when the computation paused and `Ready` with the
    /// final value when it finished; after `Ready`, every further call is
    /// rejected with `PolledAfterCompletion`.  The slot always leaves the
    /// call with the contents it entered with.
    pub fn poll(&mut self, slot: &mut ContextSlot, handle: WakeHandle) -> (r: Result<
        PollResult<T::Output>,
        TaskError,
    >)
        requires
            old(self).wf(),
        ensures
            final(self).wf(),
            final(slot)@ == old(slot)@,
            poll_transition(*old(self), *final(self), handle, r),
    {
        if self.completed {
            return Err(TaskError::PolledAfterCompletion);
        }
        let saved: Option<WakeHandle> = slot.swap_contents(Some(handle));
        let outcome = self.computation.resume(slot);
        let _: Option<WakeHandle> = slot.swap_contents(saved);
        match outcome {
            ResumeOutcome::Yielded => Ok(PollResult::Pending),
            ResumeOutcome::Completed(value) => {
                self.completed = true;
                Ok(PollResult::Ready(value))
            },
        }
    }

    /// Give the wrapped computation back, ending the adapter's lifetime.
    pub fn into_inner(self) -> (computation: T)
        ensures
            computation == self.computation(),
    {
        self.computation
    }
}

/// How one `poll` with `handle` relates the adapter state `pre` to the
/// adapter state `post` and the report `r`.
///
/// A poll on a completed adapter is rejected and changes nothing.  A poll
/// on an active adapter reports `Ok`, the wrapped computation takes one
/// step of its own transition relation under ambient context
/// `Some(handle)` — the handle reaches the resumption exactly as installed —
/// and the adapter reaches its terminal state exactly when the report is
/// `Ready`.
pub open spec fn poll_transition<T: ResumableComputation>(
    pre: GenFuture<T>,
    post: GenFuture<T>,
    handle: WakeHandle,
    r: Result<PollResult<T::Output>, TaskError>,
) -> bool {
    if pre.is_completed() {
        &&& r == Err::<PollResult<T::Output>, TaskError>(TaskError::PolledAfterCompletion)
        &&& post == pre
    } else {
        &&& r is Ok
        &&& T::step(pre.computation(), post.computation(), Some(handle), outcome_of(r->Ok_0))
        &&& post.is_completed() == (r->Ok_0 is Ready)
    }
}

/// Wrap a suspendable computation in an adapter, in the active state.
///
/// The computation must not have finished already: the adapter owns it from
/// before its first step through its whole lifetime.
pub fn from_generator<T: ResumableComputation>(computation: T) -> (fut: GenFuture<T>)
    requires
        !computation.done(),
    ensures
        fut.computation() == computation,
        !fut.is_completed(),
        fut.wf(),
{
    GenFuture { computation, completed: false }
}

/// Poll an adapter with the wake handle already installed in the ambient
/// context by an enclosing frame.
///
/// This is how a resumption that received its handle implicitly advances a
/// nested adapter: the handle is reclaimed from the slot — failing with
/// `ContextMissing` when none is installed — and the nested poll runs under
/// it, reinstalling it for the inner resumption.  The slot always leaves
/// the call with the contents it entered with.
pub fn poll_with_tls_waker<T: ResumableComputation>(
    fut: &mut GenFuture<T>,
    slot: &mut ContextSlot,
) -> (r: Result<PollResult<T::Output>, TaskError>)
    requires
        old(fut).wf(),
    ensures
        final(fut).wf(),
        final(slot)@ == old(slot)@,
        old(slot)@ is None ==> r == Err::<PollResult<T::Output>, TaskError>(
            TaskError::ContextMissing,
        ) && *final(fut) == *old(fut),
        old(slot)@ matches Some(handle) ==> poll_transition(*old(fut), *final(fut), handle, r),
{
    let taken: Option<WakeHandle> = slot.swap_contents(None);
    match taken {
        None => Err(TaskError::ContextMissing),
        Some(handle) => {
            let r = fut.poll(slot, handle);
            let _: Option<WakeHandle> = slot.swap_contents(taken);
            r
        },
    }
}

} // verus!
