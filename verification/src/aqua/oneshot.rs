//! Error types of oneshot channels.
use vstd::prelude::*;

verus! {

/// Error for sending on a oneshot channel: the value and the reason.
pub struct OneshotSendError<T> {
    pub value: T,
    pub reason: OneshotSendErrorReason,
}

/// Reason a oneshot send failed.
#[derive(Debug, Copy, Clone, PartialEq, Eq, Structural)]
pub enum OneshotSendErrorReason {
    Closed,
    ConnectionLost,
}

/// Error for receiving on a oneshot channel.
#[derive(Debug, Copy, Clone, PartialEq, Eq, Structural)]
pub enum OneshotRecvError {
    Closed,
    ConnectionLost,
}

/// Error for receiving on a oneshot channel without blocking; `Empty` gives the receiver back.
pub enum OneshotTryRecvError<R> {
    Empty(R),
    Closed,
    ConnectionLost,
}

} // verus!
