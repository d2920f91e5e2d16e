//! A model suspendable computation: it pauses a fixed number of times and
//! then finishes with a fixed value, recording the ambient context each
//! resumption observed.
//!
//! Driving one of these through the adapter exercises every part of the
//! polling contract, and the law at the bottom pins down the whole poll
//! schedule: as many `Pending` reports as there are pauses, then `Ready`
//! with the final value.

use vstd::prelude::*;

use crate::adapter::poll_transition;
use crate::adapter::GenFuture;
use crate::adapter::PollResult;
use crate::adapter::ResumableComputation;
use crate::adapter::ResumeOutcome;
use crate::context::ContextSlot;
use crate::context::TaskError;
use crate::context::WakeHandle;

verus! {

/// A computation that yields `remaining` more times and then finishes with
/// `value`.  Each resumption records in `observed` the ambient context it
/// saw, which is how a test can tell that the wake handle of the current
/// poll really reached the suspension point.
#[derive(Clone, Copy, Debug, PartialEq, Eq)]
pub struct Countdown {
    /// How many more resumptions pause before the final one.
    pub remaining: u64,
    /// The value the final resumption finishes with.
    pub value: u64,
    /// Whether the computation has finished.
    pub finished: bool,
    /// The ambient context the most recent resumption observed.
    pub observed: Option<WakeHandle>,
}

impl Countdown {
    /// A fresh computation that will yield `yields` times and then finish
    /// with `value`.
    pub fn new(yields: u64, value: u64) -> (c: Countdown)
        ensures
            c.remaining == yields,
            c.value == value,
            !c.finished,
            c.observed is None,
    {
        Countdown { remaining: yields, value, finished: false, observed: None }
    }

    /// The ambient context the most recent resumption observed.
    pub fn last_observed(&self) -> (ctx: Option<WakeHandle>)
        ensures
            ctx == self.observed,
    {
        self.observed
    }
}

impl ResumableComputation for Countdown {
    type Output = u64;

    open spec fn done(self) -> bool {
        self.finished
    }

    open spec fn step(
        pre: Countdown,
        post: Countdown,
        ctx: Option<WakeHandle>,
        outcome: ResumeOutcome<u64>,
    ) -> bool {
        &&& !pre.finished
        &&& post.value == pre.value
        &&& post.observed == ctx
        &&& if pre.remaining > 0 {
            &&& outcome is Yielded
            &&& post.remaining == pre.remaining - 1
            &&& !post.finished
        } else {
            &&& outcome == ResumeOutcome::Completed(pre.value)
            &&& post.remaining == 0
            &&& post.finished
        }
    }

    fn resume(&mut self, slot: &mut ContextSlot) -> (outcome: ResumeOutcome<u64>) {
        self.observed = slot.current();
        if self.remaining > 0 {
            self.remaining = self.remaining - 1;
            ResumeOutcome::Yielded
        } else {
            self.finished = true;
            ResumeOutcome::Completed(self.value)
        }
    }
}

/// An adapter freshly wrapped around a computation that will yield `yields`
/// times and then finish with `value`.
pub open spec fn fresh_countdown(fut: GenFuture<Countdown>, yields: u64, value: u64) -> bool {
    &&& !fut.is_completed()
    &&& !fut.computation().finished
    &&& fut.computation().remaining == yields
    &&& fut.computation().value == value
}

/// After `i` polls of a fresh countdown adapter, the adapter is still
/// active and the computation has `yields - i` pauses left.
proof fn lemma_poll_schedule_state(
    states: Seq<GenFuture<Countdown>>,
    handles: Seq<WakeHandle>,
    reports: Seq<Result<PollResult<u64>, TaskError>>,
    yields: u64,
    value: u64,
    i: int,
)
    requires
        states.len() == yields + 2,
        handles.len() == yields + 1,
        reports.len() == yields + 1,
        fresh_countdown(states[0], yields, value),
        forall|j: int|
            0 <= j <= yields ==> poll_transition(
                states[j],
                states[j + 1],
                handles[j],
                #[trigger] reports[j],
            ),
        0 <= i <= yields,
    ensures
        !states[i].is_completed(),
        !states[i].computation().finished,
        states[i].computation().remaining == yields - i,
        states[i].computation().value == value,
    decreases i,
{
    if i > 0 {
        lemma_poll_schedule_state(states, handles, reports, yields, value, i - 1);
        assert(poll_transition(states[i - 1], states[i], handles[i - 1], reports[i - 1]));
    }
}

/// Law: driving an adapter over a computation that yields exactly `yields`
/// times before finishing with `value` reports `Pending` on each of the
/// first `yields` polls and `Ready(value)` on the poll after them,
/// whatever wake handles the driver supplies along the way.
pub proof fn lemma_poll_schedule(
    states: Seq<GenFuture<Countdown>>,
    handles: Seq<WakeHandle>,
    reports: Seq<Result<PollResult<u64>, TaskError>>,
    yields: u64,
    value: u64,
)
    requires
        states.len() == yields + 2,
        handles.len() == yields + 1,
        reports.len() == yields + 1,
        fresh_countdown(states[0], yields, value),
        forall|j: int|
            0 <= j <= yields ==> poll_transition(
                states[j],
                states[j + 1],
                handles[j],
                #[trigger] reports[j],
            ),
    ensures
        forall|j: int|
            0 <= j < yields ==> #[trigger] reports[j] == Ok::<PollResult<u64>, TaskError>(
                PollResult::Pending,
            ),
        reports[yields as int] == Ok::<PollResult<u64>, TaskError>(
            PollResult::Ready(value),
        ),
{
    assert forall|j: int|
        0 <= j < yields implies #[trigger] reports[j] == Ok::<PollResult<u64>, TaskError>(
        PollResult::Pending,
    ) by {
        lemma_poll_schedule_state(states, handles, reports, yields, value, j);
        assert(poll_transition(states[j], states[j + 1], handles[j], reports[j]));
    }
    lemma_poll_schedule_state(states, handles, reports, yields, value, yields as int);
    assert(poll_transition(
        states[yields as int],
        states[yields as int + 1],
        handles[yields as int],
        reports[yields as int],
    ));
}

/// Law: every accepted poll delivers its wake handle into the resumption it
/// drives — after the `j`-th poll of a fresh countdown adapter, the
/// computation has observed exactly the `j`-th handle the driver supplied.
pub proof fn lemma_handle_delivery(
    states: Seq<GenFuture<Countdown>>,
    handles: Seq<WakeHandle>,
    reports: Seq<Result<PollResult<u64>, TaskError>>,
    yields: u64,
    value: u64,
)
    requires
        states.len() == yields + 2,
        handles.len() == yields + 1,
        reports.len() == yields + 1,
        fresh_countdown(states[0], yields, value),
        forall|j: int|
            0 <= j <= yields ==> poll_transition(
                states[j],
                states[j + 1],
                handles[j],
                #[trigger] reports[j],
            ),
    ensures
        forall|j: int|
            0 <= j <= yields ==> states[j + 1].computation().observed == Some(
                #[trigger] handles[j],
            ),
{
    assert forall|j: int|
        0 <= j <= yields implies states[j + 1].computation().observed == Some(
        #[trigger] handles[j],
    ) by {
        lemma_poll_schedule_state(states, handles, reports, yields, value, j);
        assert(poll_transition(states[j], states[j + 1], handles[j], reports[j]));
    }
}

} // verus!
