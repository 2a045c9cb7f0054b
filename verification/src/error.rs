//! The error taxonomy of the bridge.

use vstd::prelude::*;

verus! {

/// What can go wrong with a stream operation.
///
/// Failures detected at submission time are returned synchronously and no
/// correlation object is ever allocated for them.
#[derive(Clone, Copy, Debug, PartialEq, Eq, Structural)]
pub enum Error {
    /// The endpoint has no usable native connection handle.
    NotConnected,
    /// The native layer reported a failure status.  The payload is the
    /// magnitude of the (negative) native status code.
    Transport(u64),
}

} // verus!
