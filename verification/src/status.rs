//! Classification of raw submission words: the completion classifier.
//!
//! A non-blocking native submit call returns one pointer-sized word.  The
//! transport encodes three cases into it:
//!
//! - the null word: the operation completed synchronously;
//! - a word that is the two's-complement image of a small negative status
//!   code: the operation failed with that status;
//! - any other word: the operation is in flight, and the word is the
//!   opaque handle of the pending native request.
//!
//! The classifier turns such a word, together with the synchronously known
//! result value of the operation, into a [`SubmissionOutcome`].

use vstd::prelude::*;

use crate::error::Error;

verus! {

/// Two's-complement image of the most negative status code the native
/// layer emits.  Every word at or above this value encodes an error
/// status; every nonzero word below it is an opaque request handle.
pub const ERROR_WORD_FIRST: u64 = 0xFFFF_FFFF_FFFF_FF9Cu64;

/// The three-way result of classifying one submission word.  Produced
/// once per submission and consumed immediately; never persisted.
#[derive(Clone, Copy, Debug, PartialEq, Eq, Structural)]
pub enum SubmissionOutcome {
    /// The operation completed synchronously with this result value.
    Immediate(usize),
    /// The operation is in flight; the payload is the opaque handle word
    /// of the pending native request.
    Pending(u64),
    /// The submission failed; no request is in flight.
    Failure(Error),
}

/// The word that reports synchronous completion.
pub open spec fn is_immediate_word(raw: u64) -> bool {
    raw == 0
}

/// The words that encode an error status.
pub open spec fn is_error_word(raw: u64) -> bool {
    raw >= ERROR_WORD_FIRST
}

/// The words that are opaque handles of pending native requests.
pub open spec fn is_handle_word(raw: u64) -> bool {
    raw != 0 && raw < ERROR_WORD_FIRST
}

/// The magnitude of the negative status code that an error word encodes.
pub open spec fn error_code_of(raw: u64) -> u64
    recommends
        is_error_word(raw),
{
    (u64::MAX - raw + 1) as u64
}

/// How an error word is reported to callers: exactly the classification
/// of its status code.
pub open spec fn spec_classify_error(raw: u64) -> Error {
    Error::Transport(error_code_of(raw))
}

/// The classifier's decision on a raw submission word `raw`, where
/// `immediate` is the operation's synchronously known result value.
pub open spec fn spec_classify(raw: u64, immediate: usize) -> SubmissionOutcome {
    if is_immediate_word(raw) {
        SubmissionOutcome::Immediate(immediate)
    } else if is_error_word(raw) {
        SubmissionOutcome::Failure(spec_classify_error(raw))
    } else {
        SubmissionOutcome::Pending(raw)
    }
}

/// Does the word encode an error status?
pub fn word_is_error(raw: u64) -> (r: bool)
    ensures
        r == is_error_word(raw),
{
    raw >= ERROR_WORD_FIRST
}

/// Is the word an opaque handle of a pending native request?
pub fn word_is_handle(raw: u64) -> (r: bool)
    ensures
        r == is_handle_word(raw),
{
    raw != 0 && raw < ERROR_WORD_FIRST
}

/// The completion classifier: decide synchronously whether a submission
/// already completed (with result `immediate`), failed, or is pending.
pub fn classify_submission(raw: u64, immediate: usize) -> (out: SubmissionOutcome)
    ensures
        out == spec_classify(raw, immediate),
{
    if raw == 0 {
        SubmissionOutcome::Immediate(immediate)
    } else if raw >= ERROR_WORD_FIRST {
        SubmissionOutcome::Failure(Error::Transport(u64::MAX - raw + 1))
    } else {
        SubmissionOutcome::Pending(raw)
    }
}

} // verus!
