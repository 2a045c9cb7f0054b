//! The suspension bridge: awaiting a pending opaque handle.
//!
//! When the classifier reports a submission as pending, the task attaches
//! a [`SuspensionBridge`] to the opaque handle word, suspends, and is
//! resumed either by the completion callback (via the request arena) or by
//! a scheduler-driven re-poll.  On each resume the runtime queries the
//! native layer for the operation's status, turns the answer into a
//! [`PollOutcome`] with the operation's poll function, and feeds it to the
//! bridge, which decides whether the await is over.

use vstd::prelude::*;

use crate::request::Request;
use crate::request::RequestArena;

verus! {

/// Native status code that the transport reports while an operation is
/// still in flight.  Any other code means the operation is no longer in
/// progress.
pub const STATUS_IN_PROGRESS: i64 = 1;

/// What an operation-specific poll function reports about a pending
/// operation: still in flight, or finished with this result value.
#[derive(Clone, Copy, Debug, PartialEq, Eq, Structural)]
pub enum PollOutcome {
    /// The native status is still in-progress.
    Pending,
    /// The operation finished; the payload is its result value.
    Ready(usize),
}

/// The bridge's answer to one resume: keep the task suspended, or resolve
/// the await with this value.
#[derive(Clone, Copy, Debug, PartialEq, Eq, Structural)]
pub enum BridgeStep {
    /// The operation is still in flight; the task stays suspended.
    Suspended,
    /// The await is over with this result value.
    Resolved(usize),
}

/// One suspended await on a pending opaque handle.
#[derive(Clone, Copy, Debug)]
pub struct SuspensionBridge {
    /// The opaque handle word of the pending native request.
    pub handle: u64,
    /// The arena slot of the correlation object, once the task has
    /// suspended for the first time.
    pub slot: Option<usize>,
    /// The result value, once a poll has reported the operation ready.
    pub resolved: Option<usize>,
}

/// A bridge freshly attached to a pending handle: no correlation object
/// yet, no result yet.
pub open spec fn spec_attach(handle: u64) -> SuspensionBridge {
    SuspensionBridge { handle, slot: None, resolved: None }
}

/// What one poll outcome does to a suspended bridge: a pending outcome
/// changes nothing and keeps the task suspended; a ready outcome resolves
/// the await with the reported value.
pub open spec fn spec_on_poll(b: SuspensionBridge, outcome: PollOutcome) -> (
    SuspensionBridge,
    BridgeStep,
) {
    match outcome {
        PollOutcome::Pending => (b, BridgeStep::Suspended),
        PollOutcome::Ready(v) => (
            SuspensionBridge { handle: b.handle, slot: b.slot, resolved: Some(v) },
            BridgeStep::Resolved(v),
        ),
    }
}

impl SuspensionBridge {
    /// Attach a bridge to the opaque handle word of a pending submission.
    pub fn attach(handle: u64) -> (b: SuspensionBridge)
        ensures
            b == spec_attach(handle),
    {
        SuspensionBridge { handle, slot: None, resolved: None }
    }

    /// The task's first suspension: allocate the correlation object and
    /// register the resume handle in one step, so that by the time the
    /// operation can be observed as pending the handle is registered and
    /// a completion callback cannot race past it.
    pub fn suspend(&mut self, arena: &mut RequestArena, waker: u64)
        requires
            old(self).slot is None,
            old(self).resolved is None,
        ensures
            *final(self) == (SuspensionBridge {
                handle: old(self).handle,
                slot: Some(old(arena)@.len() as usize),
                resolved: None,
            }),
            final(arena)@ == old(arena)@.push(
                Some(Request { waker: Some(waker), woken: false, length: None }),
            ),
    {
        let idx = arena.allocate();
        arena.register_waker(idx, waker);
        proof {
            assert(arena@ =~= old(arena)@.push(
                Some(Request { waker: Some(waker), woken: false, length: None }),
            ));
        }
        self.slot = Some(idx);
    }

    /// One resume of the awaiting task: feed it the outcome the
    /// operation's poll function produced.  A pending outcome leaves the
    /// bridge exactly as it was and yields no value — the task remains
    /// suspended; a ready outcome resolves the await.
    pub fn on_poll(&mut self, outcome: PollOutcome) -> (step: BridgeStep)
        requires
            old(self).resolved is None,
        ensures
            (*final(self), step) == spec_on_poll(*old(self), outcome),
    {
        match outcome {
            PollOutcome::Pending => BridgeStep::Suspended,
            PollOutcome::Ready(v) => {
                self.resolved = Some(v);
                BridgeStep::Resolved(v)
            },
        }
    }
}

/// Observing "still pending" never produces a value: however often a
/// suspended bridge is polled with a pending outcome, it is left exactly
/// as it was, unresolved, and the task remains suspended.
pub proof fn lemma_pending_keeps_suspended(b: SuspensionBridge)
    requires
        b.resolved is None,
    ensures
        spec_on_poll(b, PollOutcome::Pending) == (b, BridgeStep::Suspended),
        spec_on_poll(b, PollOutcome::Pending).0.resolved is None,
{
}

/// The cumulative effect of a run of poll outcomes on a bridge: the
/// outcomes are fed to it one resume at a time, first one first.
pub open spec fn spec_poll_run(b: SuspensionBridge, outcomes: Seq<PollOutcome>) -> SuspensionBridge
    decreases outcomes.len(),
{
    if outcomes.len() == 0 {
        b
    } else {
        spec_poll_run(spec_on_poll(b, outcomes[0]).0, outcomes.drop_first())
    }
}

/// However long a run of "still pending" outcomes a bridge observes, it
/// never produces a final value: the bridge is left exactly as it was,
/// so a task suspended on it remains suspended.
pub proof fn lemma_pending_run_never_resolves(b: SuspensionBridge, outcomes: Seq<PollOutcome>)
    requires
        forall|i: int| 0 <= i < outcomes.len() ==> outcomes[i] is Pending,
    ensures
        spec_poll_run(b, outcomes) == b,
    decreases outcomes.len(),
{
    if outcomes.len() > 0 {
        assert(outcomes[0] is Pending);
        assert(forall|i: int|
            0 <= i < outcomes.drop_first().len() ==> outcomes.drop_first()[i] == outcomes[i + 1]);
        lemma_pending_run_never_resolves(b, outcomes.drop_first());
    }
}

/// A run that stays pending for a while and then observes one ready
/// outcome resolves exactly then, to exactly the value that outcome
/// carried.
pub proof fn lemma_ready_after_pending_run_resolves(
    b: SuspensionBridge,
    outcomes: Seq<PollOutcome>,
    v: usize,
)
    requires
        forall|i: int| 0 <= i < outcomes.len() ==> outcomes[i] is Pending,
    ensures
        spec_poll_run(b, outcomes.push(PollOutcome::Ready(v))).resolved == Some(v),
        spec_on_poll(spec_poll_run(b, outcomes), PollOutcome::Ready(v)).1 == BridgeStep::Resolved(
            v,
        ),
    decreases outcomes.len(),
{
    lemma_pending_run_never_resolves(b, outcomes);
    lemma_poll_run_push(b, outcomes, PollOutcome::Ready(v));
}

/// Feeding one more outcome after a run is the run followed by one poll.
pub proof fn lemma_poll_run_push(b: SuspensionBridge, outcomes: Seq<PollOutcome>, last: PollOutcome)
    ensures
        spec_poll_run(b, outcomes.push(last)) == spec_on_poll(spec_poll_run(b, outcomes), last).0,
    decreases outcomes.len(),
{
    reveal_with_fuel(spec_poll_run, 2);
    if outcomes.len() == 0 {
        assert(outcomes.push(last)[0] == last);
        assert(outcomes.push(last).drop_first() =~= Seq::<PollOutcome>::empty());
    } else {
        assert(outcomes.push(last)[0] == outcomes[0]);
        assert(outcomes.push(last).drop_first() =~= outcomes.drop_first().push(last));
        lemma_poll_run_push(spec_on_poll(b, outcomes[0]).0, outcomes.drop_first(), last);
    }
}

/// The plain completion wait used by operations without a variable
/// result: it reports ready, with no payload to extract, as soon as the
/// native status is no longer in-progress.
pub fn poll_normal(status: i64) -> (ready: bool)
    ensures
        ready == (status != STATUS_IN_PROGRESS),
{
    status != STATUS_IN_PROGRESS
}

/// The decision of the stream-receive poll function on one native status
/// query: still in progress, or ready with the byte count the native
/// layer has by then written into the length slot.
pub open spec fn spec_poll_stream(status: i64, length_slot: usize) -> PollOutcome {
    if status == STATUS_IN_PROGRESS {
        PollOutcome::Pending
    } else {
        PollOutcome::Ready(length_slot)
    }
}

/// The stream-receive poll function: `status` is the native layer's
/// answer to a status query on the pending request, `length_slot` the
/// byte count it has written alongside.  While the status is in-progress
/// the operation is pending; as soon as it is not, the operation is ready
/// with the extracted byte count.
pub fn poll_stream(status: i64, length_slot: usize) -> (out: PollOutcome)
    ensures
        out == spec_poll_stream(status, length_slot),
{
    if status == STATUS_IN_PROGRESS {
        PollOutcome::Pending
    } else {
        PollOutcome::Ready(length_slot)
    }
}

} // verus!
