//! Channel error types.
use vstd::prelude::*;

verus! {

/// Error for trying to send into a channel for which all receivers have been dropped.
#[derive(Debug, Copy, Clone, PartialEq, Eq, Hash, Structural)]
pub struct NoReceiversError;

/// Error for trying to use a channel which a sender has cancelled.
#[derive(Debug, Copy, Clone, PartialEq, Eq, Hash, Structural)]
pub struct CancelledError;

/// Error for trying to use a networked channel whose network connection has been lost.
#[derive(Debug, Copy, Clone, PartialEq, Eq, Hash, Structural)]
pub struct ConnectionLostError;

/// Error for trying to use a channel which was sent through another networked channel in a
/// message that will never be delivered.
#[derive(Debug, Copy, Clone, PartialEq, Eq, Hash, Structural)]
pub struct ChannelLostInTransitError;

/// Error for an operation with no or limited blocking that did not complete in time.
#[derive(Debug, Copy, Clone, PartialEq, Eq, Hash, Structural)]
pub struct WouldBlockError;

/// Error for trying to send into a channel: the message and the reason it was not sent.
#[derive(Debug, Copy, Clone, PartialEq, Eq, Hash)]
pub struct SendError<T, E> {
    pub msg: T,
    pub cause: E,
}

/// Terminal error state for trying to send into a channel.
#[derive(Debug, Copy, Clone, PartialEq, Eq, Hash, Structural)]
pub enum SendErrorCause {
    NoReceivers(NoReceiversError),
    Cancelled(CancelledError),
    ConnectionLost(ConnectionLostError),
    ChannelLostInTransit(ChannelLostInTransitError),
}

/// Error for trying to send into a channel with no or limited blocking.
#[derive(Debug, Copy, Clone, PartialEq, Eq, Hash, Structural)]
pub enum TrySendErrorCause {
    Terminal(SendErrorCause),
    WouldBlock(WouldBlockError),
}

/// Terminal error state for trying to receive from a channel.
#[derive(Debug, Copy, Clone, PartialEq, Eq, Hash, Structural)]
pub enum RecvError {
    Cancelled(CancelledError),
    ConnectionLost(ConnectionLostError),
    ChannelLostInTransit(ChannelLostInTransitError),
}

/// Error for trying to receive from a channel with no or limited blocking.
#[derive(Debug, Copy, Clone, PartialEq, Eq, Hash, Structural)]
pub enum TryRecvError {
    Terminal(RecvError),
    WouldBlock(WouldBlockError),
}

/// Terminal state for trying to receive from a channel.
#[derive(Debug, Copy, Clone, PartialEq, Eq, Hash, Structural)]
pub enum RecvTerminalState {
    Finished,
    Error(RecvError),
}

impl From<NoReceiversError> for SendErrorCause {
    fn from(inner: NoReceiversError) -> (r: Self) {
        SendErrorCause::NoReceivers(inner)
    }
}

impl vstd::std_specs::convert::FromSpecImpl<NoReceiversError> for SendErrorCause {
    open spec fn obeys_from_spec() -> bool {
        true
    }

    open spec fn from_spec(inner: NoReceiversError) -> SendErrorCause {
        SendErrorCause::NoReceivers(inner)
    }
}

impl From<CancelledError> for SendErrorCause {
    fn from(inner: CancelledError) -> (r: Self) {
        SendErrorCause::Cancelled(inner)
    }
}

impl vstd::std_specs::convert::FromSpecImpl<CancelledError> for SendErrorCause {
    open spec fn obeys_from_spec() -> bool {
        true
    }

    open spec fn from_spec(inner: CancelledError) -> SendErrorCause {
        SendErrorCause::Cancelled(inner)
    }
}

impl From<ConnectionLostError> for SendErrorCause {
    fn from(inner: ConnectionLostError) -> (r: Self) {
        SendErrorCause::ConnectionLost(inner)
    }
}

impl vstd::std_specs::convert::FromSpecImpl<ConnectionLostError> for SendErrorCause {
    open spec fn obeys_from_spec() -> bool {
        true
    }

    open spec fn from_spec(inner: ConnectionLostError) -> SendErrorCause {
        SendErrorCause::ConnectionLost(inner)
    }
}

impl From<ChannelLostInTransitError> for SendErrorCause {
    fn from(inner: ChannelLostInTransitError) -> (r: Self) {
        SendErrorCause::ChannelLostInTransit(inner)
    }
}

impl vstd::std_specs::convert::FromSpecImpl<ChannelLostInTransitError> for SendErrorCause {
    open spec fn obeys_from_spec() -> bool {
        true
    }

    open spec fn from_spec(inner: ChannelLostInTransitError) -> SendErrorCause {
        SendErrorCause::ChannelLostInTransit(inner)
    }
}

impl From<SendErrorCause> for TrySendErrorCause {
    fn from(inner: SendErrorCause) -> (r: Self) {
        TrySendErrorCause::Terminal(inner)
    }
}

impl vstd::std_specs::convert::FromSpecImpl<SendErrorCause> for TrySendErrorCause {
    open spec fn obeys_from_spec() -> bool {
        true
    }

    open spec fn from_spec(inner: SendErrorCause) -> TrySendErrorCause {
        TrySendErrorCause::Terminal(inner)
    }
}

impl From<WouldBlockError> for TrySendErrorCause {
    fn from(inner: WouldBlockError) -> (r: Self) {
        TrySendErrorCause::WouldBlock(inner)
    }
}

impl vstd::std_specs::convert::FromSpecImpl<WouldBlockError> for TrySendErrorCause {
    open spec fn obeys_from_spec() -> bool {
        true
    }

    open spec fn from_spec(inner: WouldBlockError) -> TrySendErrorCause {
        TrySendErrorCause::WouldBlock(inner)
    }
}

impl From<CancelledError> for RecvError {
    fn from(inner: CancelledError) -> (r: Self) {
        RecvError::Cancelled(inner)
    }
}

impl vstd::std_specs::convert::FromSpecImpl<CancelledError> for RecvError {
    open spec fn obeys_from_spec() -> bool {
        true
    }

    open spec fn from_spec(inner: CancelledError) -> RecvError {
        RecvError::Cancelled(inner)
    }
}

impl From<ConnectionLostError> for RecvError {
    fn from(inner: ConnectionLostError) -> (r: Self) {
        RecvError::ConnectionLost(inner)
    }
}

impl vstd::std_specs::convert::FromSpecImpl<ConnectionLostError> for RecvError {
    open spec fn obeys_from_spec() -> bool {
        true
    }

    open spec fn from_spec(inner: ConnectionLostError) -> RecvError {
        RecvError::ConnectionLost(inner)
    }
}

impl From<ChannelLostInTransitError> for RecvError {
    fn from(inner: ChannelLostInTransitError) -> (r: Self) {
        RecvError::ChannelLostInTransit(inner)
    }
}

impl vstd::std_specs::convert::FromSpecImpl<ChannelLostInTransitError> for RecvError {
    open spec fn obeys_from_spec() -> bool {
        true
    }

    open spec fn from_spec(inner: ChannelLostInTransitError) -> RecvError {
        RecvError::ChannelLostInTransit(inner)
    }
}

impl From<RecvError> for TryRecvError {
    fn from(inner: RecvError) -> (r: Self) {
        TryRecvError::Terminal(inner)
    }
}

impl vstd::std_specs::convert::FromSpecImpl<RecvError> for TryRecvError {
    open spec fn obeys_from_spec() -> bool {
        true
    }

    open spec fn from_spec(inner: RecvError) -> TryRecvError {
        TryRecvError::Terminal(inner)
    }
}

impl From<WouldBlockError> for TryRecvError {
    fn from(inner: WouldBlockError) -> (r: Self) {
        TryRecvError::WouldBlock(inner)
    }
}

impl vstd::std_specs::convert::FromSpecImpl<WouldBlockError> for TryRecvError {
    open spec fn obeys_from_spec() -> bool {
        true
    }

    open spec fn from_spec(inner: WouldBlockError) -> TryRecvError {
        TryRecvError::WouldBlock(inner)
    }
}

impl From<RecvError> for RecvTerminalState {
    fn from(inner: RecvError) -> (r: Self) {
        RecvTerminalState::Error(inner)
    }
}

impl vstd::std_specs::convert::FromSpecImpl<RecvError> for RecvTerminalState {
    open spec fn obeys_from_spec() -> bool {
        true
    }

    open spec fn from_spec(inner: RecvError) -> RecvTerminalState {
        RecvTerminalState::Error(inner)
    }
}

/// Each error converts into the variant of the same name: a cause or a recv error is kept whole as
/// the terminal variant of the non-blocking error, and would-block becomes `WouldBlock`.
pub proof fn lemma_error_conversions_keep_names()
    ensures
        <SendErrorCause as vstd::std_specs::convert::FromSpec<NoReceiversError>>::from_spec(NoReceiversError) == SendErrorCause::NoReceivers(NoReceiversError),
        <SendErrorCause as vstd::std_specs::convert::FromSpec<CancelledError>>::from_spec(CancelledError) == SendErrorCause::Cancelled(CancelledError),
        <SendErrorCause as vstd::std_specs::convert::FromSpec<ConnectionLostError>>::from_spec(ConnectionLostError) == SendErrorCause::ConnectionLost(ConnectionLostError),
        <SendErrorCause as vstd::std_specs::convert::FromSpec<ChannelLostInTransitError>>::from_spec(ChannelLostInTransitError) == SendErrorCause::ChannelLostInTransit(ChannelLostInTransitError),
        <TrySendErrorCause as vstd::std_specs::convert::FromSpec<WouldBlockError>>::from_spec(WouldBlockError) == TrySendErrorCause::WouldBlock(WouldBlockError),
        <RecvError as vstd::std_specs::convert::FromSpec<CancelledError>>::from_spec(CancelledError) == RecvError::Cancelled(CancelledError),
        <RecvError as vstd::std_specs::convert::FromSpec<ConnectionLostError>>::from_spec(ConnectionLostError) == RecvError::ConnectionLost(ConnectionLostError),
        <RecvError as vstd::std_specs::convert::FromSpec<ChannelLostInTransitError>>::from_spec(ChannelLostInTransitError) == RecvError::ChannelLostInTransit(ChannelLostInTransitError),
        <TryRecvError as vstd::std_specs::convert::FromSpec<WouldBlockError>>::from_spec(WouldBlockError) == TryRecvError::WouldBlock(WouldBlockError),
        forall|c: SendErrorCause| #[trigger] <TrySendErrorCause as vstd::std_specs::convert::FromSpec<SendErrorCause>>::from_spec(c) == TrySendErrorCause::Terminal(c),
        forall|e: RecvError| #[trigger] <TryRecvError as vstd::std_specs::convert::FromSpec<RecvError>>::from_spec(e) == TryRecvError::Terminal(e),
        forall|e: RecvError| #[trigger] <RecvTerminalState as vstd::std_specs::convert::FromSpec<RecvError>>::from_spec(e) == RecvTerminalState::Error(e),
{
}

} // verus!
