//! The request correlation object and the arena that holds it.
//!
//! One [`Request`] exists per in-flight operation.  It holds the resume
//! handle ("waker") that the native completion callback invokes when the
//! operation finishes, and, for receive operations, a length slot that the
//! completion path may populate before the resume.  Correlation objects
//! live in a [`RequestArena`] and are addressed by a stable slot index, so
//! the completion path can check a slot's validity before touching it.

use vstd::prelude::*;

verus! {

/// The correlation object of one in-flight operation.
///
/// The resume handle is set once and handed out for invocation at most
/// once; the length slot is populated at most once, by the completion
/// path, before the resume.
#[derive(Clone, Copy, Debug)]
pub struct Request {
    /// The resume handle of the suspended task, as an opaque token.
    pub waker: Option<u64>,
    /// Whether a completion has already fired for this request.
    pub woken: bool,
    /// The byte count a receive completion reported, if any.
    pub length: Option<usize>,
}

/// What one completion event does to a request: if the request was already
/// woken, nothing, and no resume handle is handed out; otherwise the
/// request is marked woken, a reported length is stored, and the
/// registered resume handle (if any) is handed out for invocation.
pub open spec fn spec_fire(r: Request, len: Option<usize>) -> (Request, Option<u64>) {
    if r.woken {
        (r, None)
    } else {
        (
            Request {
                waker: r.waker,
                woken: true,
                length: if len is Some {
                    len
                } else {
                    r.length
                },
            },
            r.waker,
        )
    }
}

impl Request {
    /// A fresh correlation object: no resume handle registered, not yet
    /// woken, length slot empty.
    pub fn new() -> (r: Request)
        ensures
            r == (Request { waker: None, woken: false, length: None }),
    {
        Request { waker: None, woken: false, length: None }
    }

    /// Register the suspended task's resume handle.  The handle is set
    /// once: registration requires that none is registered yet.
    pub fn register_waker(&mut self, w: u64)
        requires
            old(self).waker is None,
        ensures
            *final(self) == (Request { waker: Some(w), woken: old(self).woken, length: old(self).length }),
    {
        self.waker = Some(w);
    }

    /// One completion event: the only side effect of the native completion
    /// callback.  Returns the resume handle to invoke, or `None` if the
    /// request was already woken — a resume handle is handed out at most
    /// once.  `len` is the byte count the completion reported, if it
    /// reported one.
    pub fn fire_completion(&mut self, len: Option<usize>) -> (wake: Option<u64>)
        ensures
            (*final(self), wake) == spec_fire(*old(self), len),
    {
        if self.woken {
            None
        } else {
            self.woken = true;
            if len.is_some() {
                self.length = len;
            }
            self.waker
        }
    }
}

/// A request's resume handle is handed out at most once: whatever a first
/// completion event yields, a second completion event on the resulting
/// request yields no handle to invoke (no double-wake).
pub proof fn lemma_no_double_wake(r: Request, len1: Option<usize>, len2: Option<usize>)
    ensures
        spec_fire(spec_fire(r, len1).0, len2).1 is None,
{
}

/// The arena of correlation objects.  Each in-flight operation owns one
/// slot, addressed by the index under which it was allocated; the slot
/// stays valid until the awaiting task releases it.  Every access through
/// an index checks the slot's validity first.
pub struct RequestArena {
    slots: Vec<Option<Request>>,
}

impl View for RequestArena {
    type V = Seq<Option<Request>>;

    closed spec fn view(&self) -> Seq<Option<Request>> {
        self.slots@
    }
}

/// What one completion event does to the arena: if `idx` addresses a live
/// slot, the event fires on that request; any other index leaves the arena
/// unchanged and hands out no resume handle.
pub open spec fn spec_complete(s: Seq<Option<Request>>, idx: int, len: Option<usize>) -> (
    Seq<Option<Request>>,
    Option<u64>,
) {
    if 0 <= idx < s.len() {
        match s[idx] {
            Some(req) => {
                let fired = spec_fire(req, len);
                (s.update(idx, Some(fired.0)), fired.1)
            },
            None => (s, None),
        }
    } else {
        (s, None)
    }
}

impl RequestArena {
    /// An empty arena.
    pub fn new() -> (a: RequestArena)
        ensures
            a@ == Seq::<Option<Request>>::empty(),
    {
        RequestArena { slots: Vec::new() }
    }

    /// The number of slots ever allocated (live or released).
    pub fn slot_count(&self) -> (n: usize)
        ensures
            n == self@.len(),
    {
        self.slots.len()
    }

    /// Does `idx` address a live correlation object?
    pub fn live(&self, idx: usize) -> (r: bool)
        ensures
            r == (idx < self@.len() && self@[idx as int] is Some),
    {
        idx < self.slots.len() && self.slots[idx].is_some()
    }

    /// Allocate a slot for a fresh correlation object and return its
    /// index.  Indices are stable: existing slots keep theirs.
    pub fn allocate(&mut self) -> (idx: usize)
        ensures
            idx == old(self)@.len(),
            final(self)@ == old(self)@.push(Some(Request { waker: None, woken: false, length: None })),
    {
        let idx = self.slots.len();
        self.slots.push(Some(Request::new()));
        idx
    }

    /// Register a resume handle with the live request at `idx`.
    pub fn register_waker(&mut self, idx: usize, w: u64)
        requires
            idx < old(self)@.len(),
            old(self)@[idx as int] matches Some(req) && req.waker is None,
        ensures
            old(self)@[idx as int] matches Some(req)
                ==> final(self)@ == old(self)@.update(
                    idx as int,
                    Some(Request { waker: Some(w), woken: req.woken, length: req.length }),
                ),
    {
        let slot = self.slots[idx];
        match slot {
            Some(mut req) => {
                req.register_waker(w);
                self.slots.set(idx, Some(req));
            },
            None => {},
        }
    }

    /// One completion event, delivered by the native completion path with
    /// the index it was handed at submission time.  The slot's validity is
    /// checked before anything is touched: a stale or out-of-range index
    /// wakes nothing.  Returns the resume handle to invoke, if any.
    pub fn complete(&mut self, idx: usize, len: Option<usize>) -> (wake: Option<u64>)
        ensures
            (final(self)@, wake) == spec_complete(old(self)@, idx as int, len),
    {
        if idx < self.slots.len() {
            let slot = self.slots[idx];
            match slot {
                Some(mut req) => {
                    let w = req.fire_completion(len);
                    self.slots.set(idx, Some(req));
                    w
                },
                None => None,
            }
        } else {
            None
        }
    }

    /// Release the slot at `idx` and hand its final request to the task
    /// that awaited it.  After this the index is dead: a late completion
    /// event on it wakes nothing.
    pub fn release(&mut self, idx: usize) -> (req: Option<Request>)
        ensures
            idx < old(self)@.len() ==> {
                &&& final(self)@ == old(self)@.update(idx as int, None::<Request>)
                &&& req == old(self)@[idx as int]
            },
            idx >= old(self)@.len() ==> {
                &&& *final(self) == *old(self)
                &&& req is None
            },
    {
        if idx < self.slots.len() {
            let slot = self.slots[idx];
            self.slots.set(idx, None);
            slot
        } else {
            None
        }
    }
}

/// Completing the same slot twice hands out a resume handle at most once:
/// the second completion event yields no handle to invoke, whatever the
/// first one did.
pub proof fn lemma_arena_no_double_wake(
    s: Seq<Option<Request>>,
    idx: int,
    len1: Option<usize>,
    len2: Option<usize>,
)
    ensures
        spec_complete(spec_complete(s, idx, len1).0, idx, len2).1 is None,
{
}

/// A released slot is dead: a completion event on it neither changes the
/// arena nor hands out a resume handle.
pub proof fn lemma_released_slot_wakes_nothing(
    s: Seq<Option<Request>>,
    idx: int,
    len: Option<usize>,
)
    requires
        0 <= idx < s.len(),
    ensures
        spec_complete(s.update(idx, None::<Request>), idx, len) == (
            s.update(idx, None::<Request>),
            None::<u64>,
        ),
{
}

} // verus!
