//! The failures this layer reports.

use vstd::prelude::*;

verus! {

/// Every failure is classified as one of these kinds and handed back to the
/// caller; none is swallowed.
#[derive(Clone, Copy, Debug, PartialEq, Eq, Structural)]
pub enum RtcError {
    /// An identifier cannot be represented in the native string encoding.
    EncodingError,
    /// The engine refused to create a resource.
    NativeAllocationError,
    /// An outbound frame whose buffer does not match its declared layout.
    InvalidFrameError,
    /// A send on a data channel that is not open.
    ChannelNotOpenError,
    /// The native send queue rejected the payload.
    BackpressureError,
    /// An operation on a resource whose native handle was released.
    UseAfterReleaseError,
    /// The engine rejected a description, or the call does not fit the
    /// signaling stage.
    NegotiationFailure,
}

} // verus!
