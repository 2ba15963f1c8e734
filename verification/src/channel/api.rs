//! Helpers adapting the channel state machine to the exposed channel API.
use super::error::{RecvError, RecvTerminalState, SendError, SendErrorCause, TryRecvError, WouldBlockError};
use super::node_queue::woken_ids;
use super::state::{
    recv_terminal_state, recv_terminal_state_spec, send_error, send_error_spec, Channel, Recv,
    RecvInner, RecvState, Send, SendInner, SendState,
};
use vstd::prelude::*;

verus! {

/// Construct a send future: one that resolves at once to the error if sending is not normal,
/// else one linked into the send queue.
pub fn send<T>(channel: &mut Channel<T>, msg: T) -> (r: Send<T>)
    requires
        old(channel).wf(),
        old(channel).next_node_id() < u64::MAX,
    ensures
        final(channel).wf(),
        r.linked_in(*final(channel)),
        old(channel).send_state() != SendState::Normal ==> r.0 == Some(
            SendInner::Cheap(old(channel).send_state(), msg),
        ) && *final(channel) == *old(channel),
        old(channel).send_state() == SendState::Normal ==> (r.0 matches Some(SendInner::Linked(l))
            && l.elem == msg && l.node.id == old(channel).next_node_id())
            && final(channel).send_nodes().nodes() == old(channel).send_nodes().nodes().push(
            (old(channel).next_node_id(), false),
        ) && final(channel).next_node_id() == old(channel).next_node_id() + 1
            && final(channel).elems() == old(channel).elems() && final(channel).recv_nodes()
            == old(channel).recv_nodes(),
        final(channel).send_state() == old(channel).send_state(),
        final(channel).recv_state() == old(channel).recv_state(),
{
    let send_state = channel.get_send_state();
    if send_state != SendState::Normal {
        return Send::cheap(send_state, msg);
    }
    channel.send(msg)
}

/// Construct a recv future: one that resolves at once to the recv state if receiving is not
/// normal, else one linked into the recv queue.
pub fn recv<T>(channel: &mut Channel<T>) -> (r: Recv)
    requires
        old(channel).wf(),
        old(channel).next_node_id() < u64::MAX,
    ensures
        final(channel).wf(),
        r.linked_in(*final(channel)),
        old(channel).recv_state() != RecvState::Normal ==> r.0 == Some(
            RecvInner::Cheap(old(channel).recv_state()),
        ) && *final(channel) == *old(channel),
        old(channel).recv_state() == RecvState::Normal ==> (r.0 matches Some(RecvInner::Linked(l))
            && l.node.id == old(channel).next_node_id())
            && final(channel).recv_nodes().nodes() == old(channel).recv_nodes().nodes().push(
            (old(channel).next_node_id(), false),
        ) && final(channel).next_node_id() == old(channel).next_node_id() + 1
            && final(channel).elems() == old(channel).elems() && final(channel).send_nodes()
            == old(channel).send_nodes(),
        final(channel).send_state() == old(channel).send_state(),
        final(channel).recv_state() == old(channel).recv_state(),
{
    let recv_state = channel.get_recv_state();
    if recv_state != RecvState::Normal {
        return Recv::cheap(recv_state);
    }
    channel.recv()
}

/// The send state after cancelling: cancelled if it was normal.
pub open spec fn cancelled_send(s: SendState) -> SendState {
    if s == SendState::Normal {
        SendState::Cancelled
    } else {
        s
    }
}

/// The recv state after cancelling: cancelled if it was normal.
pub open spec fn cancelled_recv(s: RecvState) -> RecvState {
    if s == RecvState::Normal {
        RecvState::Cancelled
    } else {
        s
    }
}

/// The nodes that cancelling wakes: every waiting node of each side whose state is normal.
pub open spec fn cancel_woken<T>(ch: Channel<T>) -> Seq<u64> {
    (if ch.send_state() == SendState::Normal {
        woken_ids(ch.send_nodes().nodes())
    } else {
        Seq::empty()
    }) + (if ch.recv_state() == RecvState::Normal {
        woken_ids(ch.recv_nodes().nodes())
    } else {
        Seq::empty()
    })
}

/// Whether finishing moves receiving to the finished state: not finished before, receiving
/// normal, and nothing buffered.
pub open spec fn finish_ends_receiving<T>(ch: Channel<T>) -> bool {
    !ch.finished() && ch.recv_state() == RecvState::Normal && ch.elems().len() == 0
}

/// The recv state after finishing.
pub open spec fn finished_recv_state<T>(ch: Channel<T>) -> RecvState {
    if finish_ends_receiving(ch) {
        RecvState::Finished
    } else {
        ch.recv_state()
    }
}

/// The nodes that finishing wakes: the waiting recv nodes, if receiving ends.
pub open spec fn finish_woken<T>(ch: Channel<T>) -> Seq<u64> {
    if finish_ends_receiving(ch) {
        woken_ids(ch.recv_nodes().nodes())
    } else {
        Seq::empty()
    }
}

/// Cancel the channel: each side whose state is normal becomes cancelled. Returns the ids of the
/// nodes to wake.
pub fn cancel<T>(channel: &mut Channel<T>) -> (woken: Vec<u64>)
    requires
        old(channel).wf(),
    ensures
        final(channel).wf(),
        final(channel).send_state() == (if old(channel).send_state() == SendState::Normal {
            SendState::Cancelled
        } else {
            old(channel).send_state()
        }),
        final(channel).recv_state() == (if old(channel).recv_state() == RecvState::Normal {
            RecvState::Cancelled
        } else {
            old(channel).recv_state()
        }),
        woken@ == (if old(channel).send_state() == SendState::Normal {
            woken_ids(old(channel).send_nodes().nodes())
        } else {
            Seq::empty()
        }) + (if old(channel).recv_state() == RecvState::Normal {
            woken_ids(old(channel).recv_nodes().nodes())
        } else {
            Seq::empty()
        }),
        final(channel).elems() == old(channel).elems(),
        final(channel).finished() == old(channel).finished(),
        final(channel).send_count() == old(channel).send_count(),
        final(channel).recv_count() == old(channel).recv_count(),
        final(channel).bound() == old(channel).bound(),
        final(channel).next_node_id() == old(channel).next_node_id(),
{
    if channel.get_send_state() == SendState::Normal || channel.get_recv_state() == RecvState::Normal {
        let mut woken = channel.set_send_error(SendState::Cancelled);
        let mut more = channel.set_recv_error(RecvState::Cancelled);
        woken.append(&mut more);
        woken
    } else {
        Vec::new()
    }
}

/// Finish the channel if receiving is normal. Returns the ids of the nodes to wake.
pub fn finish<T>(channel: &mut Channel<T>) -> (woken: Vec<u64>)
    requires
        old(channel).wf(),
    ensures
        final(channel).wf(),
        old(channel).recv_state() == RecvState::Normal ==> final(channel).finished(),
        old(channel).recv_state() != RecvState::Normal ==> *final(channel) == *old(channel)
            && woken@ == Seq::<u64>::empty(),
        final(channel).recv_state() == (if !old(channel).finished() && old(channel).recv_state()
            == RecvState::Normal && old(channel).elems().len() == 0 {
            RecvState::Finished
        } else {
            old(channel).recv_state()
        }),
        woken@ == (if !old(channel).finished() && old(channel).recv_state() == RecvState::Normal
            && old(channel).elems().len() == 0 {
            woken_ids(old(channel).recv_nodes().nodes())
        } else {
            Seq::empty()
        }),
        final(channel).elems() == old(channel).elems(),
        final(channel).send_state() == old(channel).send_state(),
        final(channel).send_count() == old(channel).send_count(),
        final(channel).recv_count() == old(channel).recv_count(),
        final(channel).bound() == old(channel).bound(),
        final(channel).next_node_id() == old(channel).next_node_id(),
        final(channel).send_nodes() == old(channel).send_nodes(),
        final(channel).finished() == (old(channel).recv_state() == RecvState::Normal || old(channel).finished()),
{
    if channel.get_recv_state() == RecvState::Normal {
        channel.finish()
    } else {
        Vec::new()
    }
}

/// Count another sender handle.
pub fn clone_sender<T>(channel: &mut Channel<T>)
    requires
        old(channel).send_count() < u64::MAX,
    ensures
        final(channel).send_count() == old(channel).send_count() + 1,
        final(channel).elems() == old(channel).elems(),
        final(channel).send_state() == old(channel).send_state(),
        final(channel).recv_state() == old(channel).recv_state(),
        final(channel).send_nodes() == old(channel).send_nodes(),
        final(channel).recv_nodes() == old(channel).recv_nodes(),
        final(channel).bound() == old(channel).bound(),
        final(channel).finished() == old(channel).finished(),
        final(channel).next_node_id() == old(channel).next_node_id(),
        final(channel).recv_count() == old(channel).recv_count(),
{
    channel.add_sender();
}

/// Drop a sender handle: cancel the channel if `cancel_on_drop`, else finish it if this was the
/// last sender. Returns the ids of the nodes to wake.
pub fn drop_sender<T>(channel: &mut Channel<T>, cancel_on_drop: bool) -> (woken: Vec<u64>)
    requires
        old(channel).wf(),
        old(channel).send_count() > 0,
    ensures
        final(channel).wf(),
        final(channel).send_count() == old(channel).send_count() - 1,
        final(channel).elems() == old(channel).elems(),
        final(channel).bound() == old(channel).bound(),
        final(channel).recv_count() == old(channel).recv_count(),
        final(channel).next_node_id() == old(channel).next_node_id(),
        cancel_on_drop ==> {
            &&& final(channel).send_state() == cancelled_send(old(channel).send_state())
            &&& final(channel).recv_state() == cancelled_recv(old(channel).recv_state())
            &&& final(channel).finished() == old(channel).finished()
            &&& woken@ == cancel_woken(*old(channel))
        },
        !cancel_on_drop && old(channel).send_count() == 1 ==> {
            &&& final(channel).send_state() == old(channel).send_state()
            &&& final(channel).recv_state() == finished_recv_state(*old(channel))
            &&& final(channel).finished() == (old(channel).recv_state() == RecvState::Normal
                || old(channel).finished())
            &&& woken@ == finish_woken(*old(channel))
            &&& final(channel).send_nodes() == old(channel).send_nodes()
        },
        !cancel_on_drop && old(channel).send_count() != 1 ==> {
            &&& final(channel).send_state() == old(channel).send_state()
            &&& final(channel).recv_state() == old(channel).recv_state()
            &&& final(channel).finished() == old(channel).finished()
            &&& final(channel).send_nodes() == old(channel).send_nodes()
            &&& final(channel).recv_nodes() == old(channel).recv_nodes()
            &&& woken@ == Seq::<u64>::empty()
        },
{
    let prev = channel.remove_sender();
    if cancel_on_drop {
        cancel(channel)
    } else if prev == 1 {
        finish(channel)
    } else {
        Vec::new()
    }
}

/// Count another receiver handle.
pub fn clone_receiver<T>(channel: &mut Channel<T>)
    requires
        old(channel).recv_count() < u64::MAX,
    ensures
        final(channel).recv_count() == old(channel).recv_count() + 1,
        final(channel).elems() == old(channel).elems(),
        final(channel).send_state() == old(channel).send_state(),
        final(channel).recv_state() == old(channel).recv_state(),
        final(channel).send_nodes() == old(channel).send_nodes(),
        final(channel).recv_nodes() == old(channel).recv_nodes(),
        final(channel).bound() == old(channel).bound(),
        final(channel).finished() == old(channel).finished(),
        final(channel).next_node_id() == old(channel).next_node_id(),
        final(channel).send_count() == old(channel).send_count(),
{
    channel.add_receiver();
}

/// Drop a receiver handle: if it was the last, sending moves to the no-receivers state, if it was
/// normal. Returns the ids of the nodes to wake.
pub fn drop_receiver<T>(channel: &mut Channel<T>) -> (woken: Vec<u64>)
    requires
        old(channel).wf(),
        old(channel).recv_count() > 0,
    ensures
        final(channel).wf(),
        final(channel).recv_count() == old(channel).recv_count() - 1,
        final(channel).send_state() == (if old(channel).recv_count() == 1 && old(channel).send_state()
            == SendState::Normal {
            SendState::NoReceivers
        } else {
            old(channel).send_state()
        }),
        final(channel).recv_state() == old(channel).recv_state(),
        final(channel).elems() == old(channel).elems(),
        final(channel).bound() == old(channel).bound(),
        final(channel).send_count() == old(channel).send_count(),
        final(channel).recv_nodes() == old(channel).recv_nodes(),
        final(channel).finished() == old(channel).finished(),
        final(channel).next_node_id() == old(channel).next_node_id(),
        woken@ == (if old(channel).recv_count() == 1 && old(channel).send_state() == SendState::Normal {
            woken_ids(old(channel).send_nodes().nodes())
        } else {
            Seq::<u64>::empty()
        }),
        !(old(channel).recv_count() == 1 && old(channel).send_state() == SendState::Normal)
            ==> final(channel).send_nodes() == old(channel).send_nodes(),
{
    let prev = channel.remove_receiver();
    if prev == 1 && channel.get_send_state() == SendState::Normal {
        channel.set_send_error(SendState::NoReceivers)
    } else {
        Vec::new()
    }
}

/// Map the result of a send future to the exposed error type.
pub fn map_send_result<T>(result: Result<(), (SendState, T)>) -> (r: Result<(), SendError<T, SendErrorCause>>)
    requires
        result matches Err((s, _)) ==> s != SendState::Normal,
    ensures
        match result {
            Ok(()) => r is Ok,
            Err((s, msg)) => r matches Err(e) && e.msg == msg && Some(e.cause) == send_error_spec(s),
        },
{
    match result {
        Ok(()) => Ok(()),
        Err((s, msg)) => {
            match send_error(s) {
                Some(cause) => Err(SendError { msg, cause }),
                None => Ok(()),
            }
        },
    }
}

/// Map the result of a recv future to the exposed result: `Ok(None)` once finished.
pub fn map_recv_result<T>(result: Result<T, RecvState>) -> (r: Result<Option<T>, RecvError>)
    requires
        result matches Err(s) ==> s != RecvState::Normal,
    ensures
        match result {
            Ok(msg) => r == Ok::<Option<T>, RecvError>(Some(msg)),
            Err(s) => match recv_terminal_state_spec(s) {
                Some(RecvTerminalState::Finished) => r == Ok::<Option<T>, RecvError>(None),
                Some(RecvTerminalState::Error(e)) => r == Err::<Option<T>, RecvError>(e),
                None => false,
            },
        },
{
    match result {
        Ok(msg) => Ok(Some(msg)),
        Err(s) => match recv_terminal_state(s) {
            Some(RecvTerminalState::Finished) => Ok(None),
            Some(RecvTerminalState::Error(e)) => Err(e),
            None => Ok(None),
        },
    }
}

/// Map the result of a non-blocking recv attempt: `Err(())` when it would have blocked.
pub fn map_try_recv_result<T>(result: Result<Result<T, RecvState>, ()>) -> (r: Result<Option<T>, TryRecvError>)
    requires
        result matches Ok(Err(s)) ==> s != RecvState::Normal,
    ensures
        match result {
            Ok(Ok(msg)) => r == Ok::<Option<T>, TryRecvError>(Some(msg)),
            Ok(Err(s)) => match recv_terminal_state_spec(s) {
                Some(RecvTerminalState::Finished) => r == Ok::<Option<T>, TryRecvError>(None),
                Some(RecvTerminalState::Error(e)) => r == Err::<Option<T>, TryRecvError>(TryRecvError::Terminal(e)),
                None => false,
            },
            Err(()) => r == Err::<Option<T>, TryRecvError>(TryRecvError::WouldBlock(WouldBlockError)),
        },
{
    match result {
        Ok(recv_result) => match map_recv_result(recv_result) {
            Ok(o) => Ok(o),
            Err(e) => Err(TryRecvError::Terminal(e)),
        },
        Err(()) => Err(TryRecvError::WouldBlock(WouldBlockError)),
    }
}

} // verus!
