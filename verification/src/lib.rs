//! Completion bridge for a non-blocking, callback-driven byte-stream
//! transport.
//!
//! The native layer answers a submission with a single word that means one
//! of three things: the operation already finished, it failed, or it is in
//! flight under an opaque request handle.  This crate verifies the logic
//! that turns such words into uniform results: the classifier for raw
//! submission words, the correlation object that a completion callback
//! wakes, the suspension bridge that a task waits on, and the stream send
//! and receive operations built from those pieces.  The native calls
//! themselves (submission, status tests, the progress pump) are performed
//! by the surrounding runtime, which feeds their raw outcomes into the
//! state machines defined here.

pub mod bridge;
pub mod endpoint;
pub mod error;
pub mod request;
pub mod status;
