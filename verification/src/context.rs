//! The ambient context channel: a single-cell slot holding at most one wake
//! handle, and the paired accessors that install and reclaim its contents
//! with guaranteed restoration.
//!
//! The slot stands for the per-thread cell of a single driver thread.  It is
//! an explicit value here: every operation that touches it receives it as a
//! parameter, so the single-writer, single-reader discipline is visible in
//! the contracts instead of hiding behind thread-local storage.

use vstd::prelude::*;

verus! {

/// An opaque token a paused computation uses to ask its driver for a
/// re-poll.
///
/// This core never looks inside a handle; it only carries one across a
/// suspension boundary.  The identifier is whatever the driver chooses, and
/// lets it tell its handles apart.
#[derive(Clone, Copy, Debug, PartialEq, Eq, Structural)]
pub struct WakeHandle {
    /// Identifier chosen by the driver.
    pub id: u64,
}

impl WakeHandle {
    /// A handle carrying the given driver-chosen identifier.
    pub fn new(id: u64) -> (handle: WakeHandle)
        ensures
            handle.id == id,
    {
        WakeHandle { id }
    }
}

/// The two failure conditions of this core.  Both signal a programmer error
/// in the surrounding driver/computation pairing, never a transient fault,
/// so no retry semantics apply to either.
#[derive(Clone, Copy, Debug, PartialEq, Eq, Structural)]
pub enum TaskError {
    /// `get_task_waker` found no handle installed: the caller is not being
    /// resumed inside a poll, or a surrounding reader already took the
    /// handle.
    ContextMissing,
    /// `poll` was invoked on an adapter that had already reported
    /// completion.
    PolledAfterCompletion,
}

/// A single-cell holder of at most one wake handle.
///
/// Lifecycle: empty when created; loaded with a handle immediately before a
/// resumption; restored to its prior contents — normally empty, but possibly
/// a handle under nested polling — immediately after.  Only the accessors in
/// this module and the adapter's poll operations write to it, and each of
/// them restores what it found, so installs compose as a pure stack
/// discipline.
pub struct ContextSlot {
    handle: Option<WakeHandle>,
}

impl View for ContextSlot {
    type V = Option<WakeHandle>;

    closed spec fn view(&self) -> Option<WakeHandle> {
        self.handle
    }
}

impl ContextSlot {
    /// An empty slot: the state of the ambient channel before any drive
    /// begins.
    pub fn new() -> (slot: ContextSlot)
        ensures
            slot@ is None,
    {
        ContextSlot { handle: None }
    }

    /// A slot holding exactly `contents`; used to hand a working cell to a
    /// body that runs under an install or a reclaim.
    fn holding(contents: Option<WakeHandle>) -> (slot: ContextSlot)
        ensures
            slot@ == contents,
    {
        ContextSlot { handle: contents }
    }

    /// Load `contents` into the slot and hand back what was there before.
    pub(crate) fn swap_contents(&mut self, contents: Option<WakeHandle>) -> (prev: Option<
        WakeHandle,
    >)
        ensures
            final(self)@ == contents,
            prev == old(self)@,
    {
        let prev = self.handle;
        self.handle = contents;
        prev
    }

    /// Read the current contents without changing them.
    pub fn current(&self) -> (contents: Option<WakeHandle>)
        ensures
            contents == self@,
    {
        self.handle
    }

    /// Whether the slot holds no handle.
    pub fn is_empty(&self) -> (empty: bool)
        ensures
            empty == (self@ is None),
    {
        self.handle.is_none()
    }
}

/// Holds when `r` is an outcome the install accessor can hand back for
/// `body` under `handle`: `body` was run on some working cell holding
/// `Some(handle)` and returned `r` beside the cell it left behind.
pub open spec fn ran_installed<F, R>(body: F, handle: WakeHandle, r: R) -> bool where
    F: FnOnce(ContextSlot) -> (ContextSlot, R),
 {
    exists|cell: ContextSlot, left: ContextSlot|
        cell@ == Some(handle) && #[trigger] call_ensures(body, (cell,), (left, r))
}

/// Holds when `out` is an outcome the reclaim accessor can hand back for
/// `body` under `handle`: `body` was run on some emptied working cell,
/// received `handle`, and returned `out` beside the cell it left behind.
pub open spec fn ran_reclaimed<F, R>(body: F, handle: WakeHandle, out: R) -> bool where
    F: FnOnce(ContextSlot, WakeHandle) -> (ContextSlot, R),
 {
    exists|cell: ContextSlot, left: ContextSlot|
        cell@ is None && #[trigger] call_ensures(body, (cell, handle), (left, out))
}

/// Install `handle` as the ambient context for the duration of `body`, then
/// restore the slot to the contents captured before the install.
///
/// The prior contents of `slot` are captured first and put back after `body`
/// returns, whatever `body` left in the working cell it was handed; `body`
/// itself runs on a cell holding `Some(handle)`, so nested reclaims and
/// nested installs inside it see the handle.  The body receives the cell by
/// value and returns it, which keeps the install scoped: nothing the body
/// does to the cell outlives the call.  Within this verified core a body
/// that satisfies its own precondition cannot panic, so the restore always
/// runs.
pub fn set_task_waker<F, R>(slot: &mut ContextSlot, handle: WakeHandle, body: F) -> (r: R) where
    F: FnOnce(ContextSlot) -> (ContextSlot, R),

    requires
        forall|cell: ContextSlot|
            cell@ == Some(handle) ==> #[trigger] call_requires(body, (cell,)),
    ensures
        final(slot)@ == old(slot)@,
        ran_installed(body, handle, r),
{
    let saved: Option<WakeHandle> = slot.swap_contents(None);
    let (_left, r) = body(ContextSlot::holding(Some(handle)));
    let _: Option<WakeHandle> = slot.swap_contents(saved);
    r
}

/// Reclaim the installed handle for the duration of `body`, then restore the
/// slot to the contents found on entry.
///
/// When the slot is empty this fails with `ContextMissing` and `body` is
/// never run: there is no handle to hand out, and defaulting one silently
/// would leave the caller unable to register for re-wakeup.  Otherwise
/// `body` receives the handle together with a working cell that has been
/// emptied, so only one live reader holds the handle at a time: a nested
/// reclaim without an intervening install observes emptiness and fails
/// rather than aliasing the handle.
pub fn get_task_waker<F, R>(slot: &mut ContextSlot, body: F) -> (r: Result<R, TaskError>) where
    F: FnOnce(ContextSlot, WakeHandle) -> (ContextSlot, R),

    requires
        forall|cell: ContextSlot, handle: WakeHandle|
            old(slot)@ == Some(handle) && cell@ is None ==> #[trigger] call_requires(
                body,
                (cell, handle),
            ),
    ensures
        final(slot)@ == old(slot)@,
        r is Err <==> old(slot)@ is None,
        r is Err ==> r->Err_0 == TaskError::ContextMissing,
        r is Ok ==> ran_reclaimed(body, old(slot)@->0, r->Ok_0),
{
    let taken: Option<WakeHandle> = slot.swap_contents(None);
    match taken {
        None => Err(TaskError::ContextMissing),
        Some(handle) => {
            let (_left, out) = body(ContextSlot::holding(None), handle);
            let _: Option<WakeHandle> = slot.swap_contents(taken);
            Ok(out)
        },
    }
}

} // verus!
