//! The endpoint and the two stream operations built on the bridge.
//!
//! `stream_send` and `stream_recv` each run the same course: check the
//! endpoint's native connection handle, build the parameter block that
//! selects the operation's completion-callback variant, hand the
//! submission to the native layer, classify the word it answers with,
//! and — when the submission is pending — await the opaque handle through
//! the suspension bridge with the operation's poll function.  The native
//! calls themselves are made by the surrounding runtime, which feeds their
//! raw outcomes into the steps defined here.

use vstd::prelude::*;

use crate::bridge::BridgeStep;
use crate::bridge::PollOutcome;
use crate::bridge::SuspensionBridge;
use crate::bridge::STATUS_IN_PROGRESS;
use crate::bridge::spec_attach;
use crate::bridge::spec_on_poll;
use crate::bridge::spec_poll_stream;
use crate::error::Error;
use crate::request::RequestArena;
use crate::status::SubmissionOutcome;
use crate::status::spec_classify;
use crate::status::spec_classify_error;
use crate::status::is_error_word;

verus! {

/// Which completion-callback variant a submission installs.
#[derive(Clone, Copy, Debug, PartialEq, Eq, Structural)]
pub enum CallbackKind {
    /// No callback is installed.
    Unset,
    /// The plain operation-complete callback, used by send: it carries no
    /// payload, its only job is to resume the correlated task.
    OperationComplete,
    /// The stream-receive-complete callback, which is additionally handed
    /// the received byte count.
    StreamRecvComplete,
}

/// The parameter block of one submission.  Only the named fields differ
/// from the default per call site; the default installs nothing.
#[derive(Clone, Copy, Debug, PartialEq, Eq, Structural)]
pub struct RequestParam {
    /// The completion-callback variant to install.
    pub callback: CallbackKind,
}

impl Default for RequestParam {
    /// The explicit default parameter block: no callback installed.
    fn default() -> (p: RequestParam)
        ensures
            p == (RequestParam { callback: CallbackKind::Unset }),
    {
        RequestParam { callback: CallbackKind::Unset }
    }
}

/// A connection-capable peer.  The native connection handle is opaque to
/// this crate and carried as a token; an endpoint whose token is absent is
/// not in a usable state.
#[derive(Clone, Copy, Debug)]
pub struct Endpoint {
    /// The live native connection handle, if the connection is usable.
    pub handle: Option<u64>,
}

/// What `get_handle` answers: the live native handle, or `NotConnected`
/// when the endpoint has none.
pub open spec fn spec_get_handle(ep: Endpoint) -> Result<u64, Error> {
    match ep.handle {
        Some(h) => Ok(h),
        None => Err(Error::NotConnected),
    }
}

/// A send submission ready to hand to the native layer: transmit `len`
/// bytes on connection `handle` with parameter block `param`.
#[derive(Clone, Copy, Debug, PartialEq, Eq, Structural)]
pub struct SendSubmission {
    /// The native connection handle to submit on.
    pub handle: u64,
    /// The number of bytes submitted for transmission.
    pub len: usize,
    /// The parameter block of the submission.
    pub param: RequestParam,
}

/// A receive submission ready to hand to the native layer: receive up to
/// `capacity` bytes on connection `handle` with parameter block `param`.
#[derive(Clone, Copy, Debug, PartialEq, Eq, Structural)]
pub struct RecvSubmission {
    /// The native connection handle to submit on.
    pub handle: u64,
    /// The capacity of the destination buffer.
    pub capacity: usize,
    /// The parameter block of the submission.
    pub param: RequestParam,
}

/// A pending send: the await resolves to the submitted byte count as soon
/// as the native status is no longer in-progress.
#[derive(Clone, Copy, Debug)]
pub struct SendAwait {
    /// The byte count the operation resolves to.
    pub len: usize,
    /// The suspended await on the pending handle.
    pub bridge: SuspensionBridge,
}

/// A pending receive: the await resolves to the byte count the native
/// layer writes into the length slot by the time it reports the request
/// as no longer in progress.
#[derive(Clone, Copy, Debug)]
pub struct RecvAwait {
    /// The capacity of the destination buffer.
    pub capacity: usize,
    /// The suspended await on the pending handle.
    pub bridge: SuspensionBridge,
}

/// Where a send stands after its submission word is classified.
#[derive(Clone, Copy, Debug)]
pub enum SendProgress {
    /// The operation resolved synchronously; no correlation object was
    /// created.
    Complete(Result<usize, Error>),
    /// The operation is in flight and must be awaited.
    Awaiting(SendAwait),
}

/// Where a receive stands after its submission word is classified.
#[derive(Clone, Copy, Debug)]
pub enum RecvProgress {
    /// The operation resolved synchronously; no correlation object was
    /// created.
    Complete(Result<usize, Error>),
    /// The operation is in flight and must be awaited.
    Awaiting(RecvAwait),
}

/// What `stream_send` produces before anything is submitted: the
/// submission to perform, or `NotConnected` when the endpoint has no live
/// handle.
pub open spec fn spec_stream_send(ep: Endpoint, len: usize) -> Result<SendSubmission, Error> {
    match ep.handle {
        Some(h) => Ok(
            SendSubmission {
                handle: h,
                len,
                param: RequestParam { callback: CallbackKind::OperationComplete },
            },
        ),
        None => Err(Error::NotConnected),
    }
}

/// What `stream_recv` produces before anything is submitted: the
/// submission to perform, or `NotConnected` when the endpoint has no live
/// handle.
pub open spec fn spec_stream_recv(ep: Endpoint, capacity: usize) -> Result<RecvSubmission, Error> {
    match ep.handle {
        Some(h) => Ok(
            RecvSubmission {
                handle: h,
                capacity,
                param: RequestParam { callback: CallbackKind::StreamRecvComplete },
            },
        ),
        None => Err(Error::NotConnected),
    }
}

/// Where a send stands once the native layer has answered its submission
/// with the word `raw`: done with the submitted byte count, failed with
/// the word's classification, or awaiting the pending handle.
pub open spec fn spec_send_submitted(sub: SendSubmission, raw: u64) -> SendProgress {
    match spec_classify(raw, sub.len) {
        SubmissionOutcome::Immediate(v) => SendProgress::Complete(Ok(v)),
        SubmissionOutcome::Failure(e) => SendProgress::Complete(Err(e)),
        SubmissionOutcome::Pending(h) => SendProgress::Awaiting(
            SendAwait { len: sub.len, bridge: spec_attach(h) },
        ),
    }
}

/// Where a receive stands once the native layer has answered its
/// submission with the word `raw`, having already written `length_slot`:
/// done with that byte count, failed with the word's classification, or
/// awaiting the pending handle.
pub open spec fn spec_recv_submitted(sub: RecvSubmission, raw: u64, length_slot: usize) -> RecvProgress {
    match spec_classify(raw, length_slot) {
        SubmissionOutcome::Immediate(v) => RecvProgress::Complete(Ok(v)),
        SubmissionOutcome::Failure(e) => RecvProgress::Complete(Err(e)),
        SubmissionOutcome::Pending(h) => RecvProgress::Awaiting(
            RecvAwait { capacity: sub.capacity, bridge: spec_attach(h) },
        ),
    }
}

/// One resume of a pending send: the operation reports ready, with no
/// payload to extract, as soon as the native status is no longer
/// in-progress, and then resolves to the submitted byte count.
pub open spec fn spec_send_on_poll(a: SendAwait, status: i64) -> (SendAwait, BridgeStep) {
    let outcome = if status == STATUS_IN_PROGRESS {
        PollOutcome::Pending
    } else {
        PollOutcome::Ready(a.len)
    };
    let stepped = spec_on_poll(a.bridge, outcome);
    (SendAwait { len: a.len, bridge: stepped.0 }, stepped.1)
}

/// One resume of a pending receive: the stream poll function queries the
/// native status and, once it is no longer in-progress, extracts the byte
/// count from the length slot.
pub open spec fn spec_recv_on_poll(a: RecvAwait, status: i64, length_slot: usize) -> (
    RecvAwait,
    BridgeStep,
) {
    let stepped = spec_on_poll(a.bridge, spec_poll_stream(status, length_slot));
    (RecvAwait { capacity: a.capacity, bridge: stepped.0 }, stepped.1)
}

impl Endpoint {
    /// An endpoint whose connection is live under the given native
    /// handle.
    pub fn connected(handle: u64) -> (ep: Endpoint)
        ensures
            ep.handle == Some(handle),
    {
        Endpoint { handle: Some(handle) }
    }

    /// An endpoint that is not in a usable state.
    pub fn unconnected() -> (ep: Endpoint)
        ensures
            ep.handle is None,
    {
        Endpoint { handle: None }
    }

    /// The live native connection handle, or `NotConnected` when the
    /// connection is not in a usable state.
    pub fn get_handle(&self) -> (r: Result<u64, Error>)
        ensures
            r == spec_get_handle(*self),
    {
        match self.handle {
            Some(h) => Ok(h),
            None => Err(Error::NotConnected),
        }
    }

    /// Start sending `buf` through the stream: check the connection and
    /// build the submission, whose parameter block selects the plain
    /// operation-complete callback.  Fails with `NotConnected`, before
    /// any native submission occurs, when the endpoint has no live
    /// handle.
    pub fn stream_send(&self, buf: &[u8]) -> (r: Result<SendSubmission, Error>)
        ensures
            r == spec_stream_send(*self, buf@.len() as usize),
    {
        let handle = self.get_handle()?;
        let param = RequestParam { callback: CallbackKind::OperationComplete };
        Ok(SendSubmission { handle, len: buf.len(), param })
    }

    /// Start receiving into a destination buffer of the given capacity:
    /// check the connection and build the submission, whose parameter
    /// block selects the stream-receive-complete callback.  Fails with
    /// `NotConnected`, before any native submission occurs, when the
    /// endpoint has no live handle.
    pub fn stream_recv(&self, capacity: usize) -> (r: Result<RecvSubmission, Error>)
        ensures
            r == spec_stream_recv(*self, capacity),
    {
        let handle = self.get_handle()?;
        let param = RequestParam { callback: CallbackKind::StreamRecvComplete };
        Ok(RecvSubmission { handle, capacity, param })
    }
}

impl SendSubmission {
    /// Route the word the native submit call answered with through the
    /// classifier: the null word resolves the send synchronously with the
    /// submitted byte count, an error word fails it with the word's exact
    /// classification, and a handle word leaves it awaiting that handle.
    /// Only the awaiting path ever attaches a correlation object.
    pub fn submitted(self, raw: u64) -> (p: SendProgress)
        ensures
            p == spec_send_submitted(self, raw),
    {
        match crate::status::classify_submission(raw, self.len) {
            SubmissionOutcome::Immediate(v) => SendProgress::Complete(Ok(v)),
            SubmissionOutcome::Failure(e) => SendProgress::Complete(Err(e)),
            SubmissionOutcome::Pending(h) => SendProgress::Awaiting(
                SendAwait { len: self.len, bridge: SuspensionBridge::attach(h) },
            ),
        }
    }
}

impl RecvSubmission {
    /// Route the word the native submit call answered with through the
    /// classifier.  `length_slot` is the byte count the native layer has
    /// written for a synchronous completion: the null word resolves the
    /// receive with it, an error word fails the receive with the word's
    /// exact classification, and a handle word leaves it awaiting that
    /// handle.  Only the awaiting path ever attaches a correlation
    /// object.
    pub fn submitted(self, raw: u64, length_slot: usize) -> (p: RecvProgress)
        ensures
            p == spec_recv_submitted(self, raw, length_slot),
    {
        match crate::status::classify_submission(raw, length_slot) {
            SubmissionOutcome::Immediate(v) => RecvProgress::Complete(Ok(v)),
            SubmissionOutcome::Failure(e) => RecvProgress::Complete(Err(e)),
            SubmissionOutcome::Pending(h) => RecvProgress::Awaiting(
                RecvAwait { capacity: self.capacity, bridge: SuspensionBridge::attach(h) },
            ),
        }
    }
}

impl SendAwait {
    /// The task's first suspension on this send: attach the correlation
    /// object in `arena` and register the resume handle `waker` with it.
    pub fn suspend(&mut self, arena: &mut RequestArena, waker: u64)
        requires
            old(self).bridge.slot is None,
            old(self).bridge.resolved is None,
        ensures
            final(self).len == old(self).len,
            final(self).bridge == (SuspensionBridge {
                handle: old(self).bridge.handle,
                slot: Some(old(arena)@.len() as usize),
                resolved: None,
            }),
            final(arena)@ == old(arena)@.push(
                Some(crate::request::Request { waker: Some(waker), woken: false, length: None }),
            ),
    {
        self.bridge.suspend(arena, waker);
    }

    /// One resume of the awaiting task, with the native layer's current
    /// status for the pending request.  While the status is in-progress
    /// the send stays suspended and unresolved; as soon as it is not, the
    /// send resolves to the submitted byte count.
    pub fn on_poll(&mut self, status: i64) -> (step: BridgeStep)
        requires
            old(self).bridge.resolved is None,
        ensures
            (*final(self), step) == spec_send_on_poll(*old(self), status),
    {
        let outcome = if crate::bridge::poll_normal(status) {
            PollOutcome::Ready(self.len)
        } else {
            PollOutcome::Pending
        };
        self.bridge.on_poll(outcome)
    }
}

impl RecvAwait {
    /// The task's first suspension on this receive: attach the
    /// correlation object in `arena` and register the resume handle
    /// `waker` with it.
    pub fn suspend(&mut self, arena: &mut RequestArena, waker: u64)
        requires
            old(self).bridge.slot is None,
            old(self).bridge.resolved is None,
        ensures
            final(self).capacity == old(self).capacity,
            final(self).bridge == (SuspensionBridge {
                handle: old(self).bridge.handle,
                slot: Some(old(arena)@.len() as usize),
                resolved: None,
            }),
            final(arena)@ == old(arena)@.push(
                Some(crate::request::Request { waker: Some(waker), woken: false, length: None }),
            ),
    {
        self.bridge.suspend(arena, waker);
    }

    /// One resume of the awaiting task: feed the native layer's answers
    /// to a status query — the status itself and the byte count written
    /// into the length slot — through the stream poll function.  While
    /// the status is in-progress the receive stays suspended and
    /// unresolved; as soon as it is not, the receive resolves to the
    /// extracted byte count.
    pub fn on_poll(&mut self, status: i64, length_slot: usize) -> (step: BridgeStep)
        requires
            old(self).bridge.resolved is None,
        ensures
            (*final(self), step) == spec_recv_on_poll(*old(self), status, length_slot),
    {
        let outcome = crate::bridge::poll_stream(status, length_slot);
        self.bridge.on_poll(outcome)
    }
}

/// On a connected endpoint, a send whose submission completes
/// immediately returns `Ok` with exactly the submitted byte count, for
/// every byte count.
pub proof fn lemma_send_immediate_completes(ep: Endpoint, n: usize)
    requires
        ep.handle is Some,
    ensures
        spec_stream_send(ep, n) matches Ok(sub) && spec_send_submitted(sub, 0)
            == SendProgress::Complete(Ok::<usize, Error>(n)),
{
}

/// On a connected endpoint, a receive whose submission completes
/// immediately with a reported length no larger than the buffer's
/// capacity returns `Ok` with exactly that length, without ever
/// suspending: the progress is complete, not awaiting.
pub proof fn lemma_recv_immediate_completes(ep: Endpoint, c: usize, l: usize)
    requires
        ep.handle is Some,
        l <= c,
    ensures
        spec_stream_recv(ep, c) matches Ok(sub) && spec_recv_submitted(sub, 0, l)
            == RecvProgress::Complete(Ok::<usize, Error>(l)),
{
}

/// On an endpoint with no live handle, both operations fail with
/// `NotConnected` before any native submission occurs: no submission
/// value is ever produced for them.
pub proof fn lemma_unconnected_fails_before_submission(ep: Endpoint, n: usize, c: usize)
    requires
        ep.handle is None,
    ensures
        spec_stream_send(ep, n) == Err::<SendSubmission, Error>(Error::NotConnected),
        spec_stream_recv(ep, c) == Err::<RecvSubmission, Error>(Error::NotConnected),
{
}

/// A submission answered with an error word fails with exactly the
/// classification of that word, and no correlation object is created:
/// the progress is complete, never awaiting, so nothing is ever attached
/// to an arena.
pub proof fn lemma_error_word_classified_exactly(
    sub: SendSubmission,
    rsub: RecvSubmission,
    raw: u64,
    length_slot: usize,
)
    requires
        is_error_word(raw),
    ensures
        spec_send_submitted(sub, raw) == SendProgress::Complete(
            Err::<usize, Error>(spec_classify_error(raw)),
        ),
        spec_recv_submitted(rsub, raw, length_slot) == RecvProgress::Complete(
            Err::<usize, Error>(spec_classify_error(raw)),
        ),
{
}

} // verus!
