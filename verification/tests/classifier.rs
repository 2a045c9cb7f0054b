//! Tests of the completion classifier and the raw-word encoding.

use completion_bridge::error::Error;
use completion_bridge::status::classify_submission;
use completion_bridge::status::word_is_error;
use completion_bridge::status::word_is_handle;
use completion_bridge::status::SubmissionOutcome;
use completion_bridge::status::ERROR_WORD_FIRST;

#[test]
fn null_word_is_immediate() {
    assert_eq!(
        classify_submission(0, 17),
        SubmissionOutcome::Immediate(17)
    );
}

#[test]
fn handle_word_is_pending() {
    assert_eq!(
        classify_submission(0x1000, 17),
        SubmissionOutcome::Pending(0x1000)
    );
}

#[test]
fn largest_handle_word_is_pending() {
    let raw = ERROR_WORD_FIRST - 1;
    assert_eq!(classify_submission(raw, 0), SubmissionOutcome::Pending(raw));
    assert!(word_is_handle(raw));
    assert!(!word_is_error(raw));
}

#[test]
fn smallest_error_word_is_failure() {
    assert_eq!(
        classify_submission(ERROR_WORD_FIRST, 0),
        SubmissionOutcome::Failure(Error::Transport(100))
    );
    assert!(word_is_error(ERROR_WORD_FIRST));
    assert!(!word_is_handle(ERROR_WORD_FIRST));
}

#[test]
fn error_word_code_is_exact() {
    // the all-ones word is the image of status code -1
    assert_eq!(
        classify_submission(u64::MAX, 9),
        SubmissionOutcome::Failure(Error::Transport(1))
    );
    // one below it is the image of status code -2
    assert_eq!(
        classify_submission(u64::MAX - 1, 9),
        SubmissionOutcome::Failure(Error::Transport(2))
    );
}

#[test]
fn null_word_is_neither_error_nor_handle() {
    assert!(!word_is_error(0));
    assert!(!word_is_handle(0));
}
