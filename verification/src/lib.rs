//! A verified core for driving suspendable stepwise computations by
//! cooperative polling.
//!
//! A suspendable computation is a state machine that is resumed repeatedly,
//! each resumption either pausing again or finishing with a value.  The
//! adapter in this crate presents a uniform "poll until ready" interface over
//! such a computation, and it delivers the wake handle — the token a paused
//! computation needs to ask its driver for a re-poll — into every resumption
//! through an ambient context slot rather than an explicit parameter of the
//! resumption itself.

pub mod adapter;
pub mod context;
pub mod countdown;

pub use adapter::{from_generator, poll_with_tls_waker, GenFuture, PollResult,
    ResumableComputation, ResumeOutcome};
pub use context::{get_task_waker, set_task_waker, ContextSlot, TaskError, WakeHandle};
pub use countdown::Countdown;
