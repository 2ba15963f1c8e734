//! Channel error types.
use vstd::prelude::*;

verus! {

/// Error for sending into a channel: the message and the reason it was not sent.
#[derive(Debug, Copy, Clone, PartialEq, Eq, Hash)]
pub struct SendError<T> {
    pub message: T,
    pub reason: SendErrorReason,
}

/// Reason a message could not be sent.
#[derive(Debug, Copy, Clone, PartialEq, Eq, Hash, Structural)]
pub enum SendErrorReason {
    /// All receivers were dropped.
    NoReceivers,
    /// The channel was cancelled.
    Cancelled,
    /// The network connection was lost.
    ConnectionLost,
}

/// Error for sending without blocking: the message and the reason it was not sent.
#[derive(Debug, Copy, Clone, PartialEq, Eq, Hash)]
pub struct TrySendError<T> {
    pub message: T,
    pub reason: TrySendErrorReason,
}

/// Reason a message could not be sent without blocking.
#[derive(Debug, Copy, Clone, PartialEq, Eq, Hash, Structural)]
pub enum TrySendErrorReason {
    /// Sending would have blocked.
    NotReady,
    /// All receivers were dropped.
    NoReceivers,
    /// The channel was cancelled.
    Cancelled,
    /// The network connection was lost.
    ConnectionLost,
}

impl<T> TrySendError<T> {
    /// Whether retrying later could succeed.
    pub fn is_temporary(self) -> (r: bool)
        ensures
            r == (self.reason == TrySendErrorReason::NotReady),
    {
        self.reason.is_temporary()
    }
}

impl TrySendErrorReason {
    /// Whether retrying later could succeed.
    pub fn is_temporary(self) -> (r: bool)
        ensures
            r == (self == TrySendErrorReason::NotReady),
    {
        self == TrySendErrorReason::NotReady
    }
}

/// The non-blocking reason for a send error reason.
pub open spec fn try_send_reason(e: SendErrorReason) -> TrySendErrorReason {
    match e {
        SendErrorReason::NoReceivers => TrySendErrorReason::NoReceivers,
        SendErrorReason::Cancelled => TrySendErrorReason::Cancelled,
        SendErrorReason::ConnectionLost => TrySendErrorReason::ConnectionLost,
    }
}

impl<T> From<SendError<T>> for TrySendError<T> {
    fn from(e: SendError<T>) -> (r: Self) {
        TrySendError { message: e.message, reason: TrySendErrorReason::from(e.reason) }
    }
}

impl<T> vstd::std_specs::convert::FromSpecImpl<SendError<T>> for TrySendError<T> {
    open spec fn obeys_from_spec() -> bool {
        true
    }

    open spec fn from_spec(e: SendError<T>) -> TrySendError<T> {
        TrySendError { message: e.message, reason: try_send_reason(e.reason) }
    }
}

impl From<SendErrorReason> for TrySendErrorReason {
    fn from(e: SendErrorReason) -> (r: Self) {
        match e {
            SendErrorReason::NoReceivers => TrySendErrorReason::NoReceivers,
            SendErrorReason::Cancelled => TrySendErrorReason::Cancelled,
            SendErrorReason::ConnectionLost => TrySendErrorReason::ConnectionLost,
        }
    }
}

impl vstd::std_specs::convert::FromSpecImpl<SendErrorReason> for TrySendErrorReason {
    open spec fn obeys_from_spec() -> bool {
        true
    }

    open spec fn from_spec(e: SendErrorReason) -> TrySendErrorReason {
        try_send_reason(e)
    }
}

/// Error for receiving from a channel.
#[derive(Debug, Copy, Clone, PartialEq, Eq, Hash, Structural)]
pub enum RecvError {
    /// The channel was cancelled.
    Cancelled,
    /// The network connection was lost.
    ConnectionLost,
}

/// Error for receiving without blocking.
#[derive(Debug, Copy, Clone, PartialEq, Eq, Hash, Structural)]
pub enum TryRecvError {
    /// Receiving would have blocked.
    NotReady,
    /// The channel was cancelled.
    Cancelled,
    /// The network connection was lost.
    ConnectionLost,
}

impl TryRecvError {
    /// Whether retrying later could succeed.
    pub fn is_temporary(self) -> (r: bool)
        ensures
            r == (self == TryRecvError::NotReady),
    {
        self == TryRecvError::NotReady
    }
}

/// The non-blocking error for a recv error.
pub open spec fn try_recv_error(e: RecvError) -> TryRecvError {
    match e {
        RecvError::Cancelled => TryRecvError::Cancelled,
        RecvError::ConnectionLost => TryRecvError::ConnectionLost,
    }
}

impl From<RecvError> for TryRecvError {
    fn from(e: RecvError) -> (r: Self) {
        match e {
            RecvError::Cancelled => TryRecvError::Cancelled,
            RecvError::ConnectionLost => TryRecvError::ConnectionLost,
        }
    }
}

impl vstd::std_specs::convert::FromSpecImpl<RecvError> for TryRecvError {
    open spec fn obeys_from_spec() -> bool {
        true
    }

    open spec fn from_spec(e: RecvError) -> TryRecvError {
        try_recv_error(e)
    }
}

/// Each send error reason has the non-blocking reason of the same name, and each recv error the
/// non-blocking error of the same name; neither is ever "not ready".
pub proof fn lemma_aqua_errors_keep_names()
    ensures
        try_send_reason(SendErrorReason::NoReceivers) == TrySendErrorReason::NoReceivers,
        try_send_reason(SendErrorReason::Cancelled) == TrySendErrorReason::Cancelled,
        try_send_reason(SendErrorReason::ConnectionLost) == TrySendErrorReason::ConnectionLost,
        try_recv_error(RecvError::Cancelled) == TryRecvError::Cancelled,
        try_recv_error(RecvError::ConnectionLost) == TryRecvError::ConnectionLost,
        forall|e: SendErrorReason| #[trigger] try_send_reason(e) != TrySendErrorReason::NotReady,
        forall|e: RecvError| #[trigger] try_recv_error(e) != TryRecvError::NotReady,
{
}

} // verus!
