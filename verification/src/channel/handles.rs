//! The handles of a channel: each holds its own settings, and acts on the channel's shared state,
//! which the caller passes in locked.
use super::api::{
    cancel, cancel_woken, cancelled_recv, cancelled_send, clone_receiver, clone_sender, drop_receiver,
    drop_sender, finish_woken, finished_recv_state, recv, send,
};
use super::node_queue::woken_ids;
use super::error::{RecvTerminalState, SendErrorCause};
use super::state::{
    recv_terminal_state, recv_terminal_state_spec, send_error, send_error_spec, Channel, Recv,
    RecvInner, RecvState, Send, SendInner, SendState,
};
use vstd::prelude::*;

verus! {

/// Create a channel: its shared state, with one sender and one receiver counted, a sender yet
/// to choose its ordering, which cancels the channel if dropped, and a receiver yet to be taken.
pub fn channel<T>() -> (r: (Channel<T>, IntoSender, IntoReceiver))
    ensures
        r.0.wf(),
        r.0.elems() == Seq::<T>::empty(),
        r.0.send_state() == SendState::Normal,
        r.0.recv_state() == RecvState::Normal,
        r.0.send_count() == 1,
        r.0.recv_count() == 1,
        r.0.next_node_id() == 0,
        !r.0.finished(),
        r.0.bound() is None,
        r.0.send_nodes().nodes() == Seq::<(u64, bool)>::empty(),
        r.0.recv_nodes().nodes() == Seq::<(u64, bool)>::empty(),
        r.1.cancel_on_drop,
{
    (Channel::new(), IntoSender { cancel_on_drop: true }, IntoReceiver)
}

/// A sender that has not yet chosen its ordering and bound.
pub struct IntoSender {
    pub cancel_on_drop: bool,
}

/// A sender that may block on a bound.
pub struct Sender {
    pub cancel_on_drop: bool,
}

impl IntoSender {
    /// Become an ordered sender with the given bound. The new sender takes over the
    /// cancel-on-drop setting, and this one is then dropped without cancelling.
    pub fn into_ordered<T>(self, ch: &mut Channel<T>, bound: usize) -> (r: (Sender, Vec<u64>))
        requires
            old(ch).wf(),
            0 < old(ch).send_count() < u64::MAX,
        ensures
            final(ch).wf(),
            r.0.cancel_on_drop == self.cancel_on_drop,
            r.1@ == Seq::<u64>::empty(),
            final(ch).bound() == Some(bound),
            final(ch).elems() == old(ch).elems(),
            final(ch).finished() == old(ch).finished(),
            final(ch).send_state() == old(ch).send_state(),
            final(ch).recv_state() == old(ch).recv_state(),
            final(ch).send_nodes() == old(ch).send_nodes(),
            final(ch).recv_nodes() == old(ch).recv_nodes(),
            final(ch).next_node_id() == old(ch).next_node_id(),
            final(ch).send_count() == old(ch).send_count(),
            final(ch).recv_count() == old(ch).recv_count(),
    {
        ch.set_bound(bound);
        clone_sender(ch);
        let woken = drop_sender(ch, false);
        (Sender { cancel_on_drop: self.cancel_on_drop }, woken)
    }

    /// Become an unordered sender with the given bound, counting one sender more as it does so.
    pub fn into_unordered<T>(self, ch: &mut Channel<T>, bound: usize) -> (r: (Sender, Vec<u64>))
        requires
            old(ch).wf(),
            0 < old(ch).send_count() < u64::MAX - 1,
        ensures
            final(ch).wf(),
            r.0.cancel_on_drop == self.cancel_on_drop,
            r.1@ == Seq::<u64>::empty(),
            final(ch).bound() == Some(bound),
            final(ch).send_count() == old(ch).send_count() + 1,
            final(ch).elems() == old(ch).elems(),
            final(ch).finished() == old(ch).finished(),
            final(ch).send_state() == old(ch).send_state(),
            final(ch).recv_state() == old(ch).recv_state(),
            final(ch).send_nodes() == old(ch).send_nodes(),
            final(ch).recv_nodes() == old(ch).recv_nodes(),
            final(ch).next_node_id() == old(ch).next_node_id(),
            final(ch).recv_count() == old(ch).recv_count(),
    {
        ch.set_bound(bound);
        ch.add_sender();
        clone_sender(ch);
        let woken = drop_sender(ch, false);
        (Sender { cancel_on_drop: self.cancel_on_drop }, woken)
    }

    /// Finish the channel.
    pub fn finish<T>(self, ch: &mut Channel<T>) -> (woken: Vec<u64>)
        requires
            old(ch).wf(),
        ensures
            final(ch).wf(),
            final(ch).finished(),
            final(ch).recv_state() == finished_recv_state(*old(ch)),
            woken@ == finish_woken(*old(ch)),
            final(ch).elems() == old(ch).elems(),
            final(ch).bound() == old(ch).bound(),
            final(ch).send_state() == old(ch).send_state(),
            final(ch).send_nodes() == old(ch).send_nodes(),
            final(ch).next_node_id() == old(ch).next_node_id(),
            final(ch).send_count() == old(ch).send_count(),
            final(ch).recv_count() == old(ch).recv_count(),
    {
        ch.finish()
    }

    /// Cancel the channel.
    pub fn cancel<T>(self, ch: &mut Channel<T>) -> (woken: Vec<u64>)
        requires
            old(ch).wf(),
        ensures
            final(ch).wf(),
            final(ch).send_state() == cancelled_send(old(ch).send_state()),
            final(ch).recv_state() == cancelled_recv(old(ch).recv_state()),
            woken@ == cancel_woken(*old(ch)),
            final(ch).elems() == old(ch).elems(),
            final(ch).bound() == old(ch).bound(),
            final(ch).finished() == old(ch).finished(),
            final(ch).next_node_id() == old(ch).next_node_id(),
            final(ch).send_count() == old(ch).send_count(),
            final(ch).recv_count() == old(ch).recv_count(),
    {
        cancel(ch)
    }

    /// Set whether dropping cancels the channel.
    pub fn set_cancel_on_drop(&mut self, cancel_on_drop: bool)
        ensures
            final(self).cancel_on_drop == cancel_on_drop,
    {
        self.cancel_on_drop = cancel_on_drop;
    }

    /// With dropping cancelling the channel or not.
    pub fn with_cancel_on_drop(self, cancel_on_drop: bool) -> (r: Self)
        ensures
            r.cancel_on_drop == cancel_on_drop,
    {
        IntoSender { cancel_on_drop }
    }

    /// Drop this sender: cancel the channel if so set, else finish it if this was the last
    /// sender.
    pub fn drop<T>(self, ch: &mut Channel<T>) -> (woken: Vec<u64>)
        requires
            old(ch).wf(),
            old(ch).send_count() > 0,
        ensures
            final(ch).wf(),
            final(ch).send_count() == old(ch).send_count() - 1,
            final(ch).elems() == old(ch).elems(),
            final(ch).bound() == old(ch).bound(),
            final(ch).recv_count() == old(ch).recv_count(),
            final(ch).next_node_id() == old(ch).next_node_id(),
            self.cancel_on_drop ==> {
                &&& final(ch).send_state() == cancelled_send(old(ch).send_state())
                &&& final(ch).recv_state() == cancelled_recv(old(ch).recv_state())
                &&& final(ch).finished() == old(ch).finished()
                &&& woken@ == cancel_woken(*old(ch))
            },
            !self.cancel_on_drop && old(ch).send_count() == 1 ==> {
                &&& final(ch).send_state() == old(ch).send_state()
                &&& final(ch).recv_state() == finished_recv_state(*old(ch))
                &&& final(ch).finished() == (old(ch).recv_state() == RecvState::Normal || old(ch).finished())
                &&& woken@ == finish_woken(*old(ch))
                &&& final(ch).send_nodes() == old(ch).send_nodes()
            },
            !self.cancel_on_drop && old(ch).send_count() != 1 ==> {
                &&& final(ch).send_state() == old(ch).send_state()
                &&& final(ch).recv_state() == old(ch).recv_state()
                &&& final(ch).finished() == old(ch).finished()
                &&& final(ch).send_nodes() == old(ch).send_nodes()
                &&& final(ch).recv_nodes() == old(ch).recv_nodes()
                &&& woken@ == Seq::<u64>::empty()
            },
    {
        drop_sender(ch, self.cancel_on_drop)
    }
}

impl Sender {
    /// Construct a send future for `msg`.
    pub fn send<T>(&self, ch: &mut Channel<T>, msg: T) -> (r: Send<T>)
        requires
            old(ch).wf(),
            old(ch).next_node_id() < u64::MAX,
        ensures
            final(ch).wf(),
            r.linked_in(*final(ch)),
            old(ch).send_state() != SendState::Normal ==> r.0 == Some(
                SendInner::Cheap(old(ch).send_state(), msg),
            ) && *final(ch) == *old(ch),
            old(ch).send_state() == SendState::Normal ==> (r.0 matches Some(SendInner::Linked(l))
                && l.elem == msg && l.node.id == old(ch).next_node_id())
                && final(ch).send_nodes().nodes() == old(ch).send_nodes().nodes().push(
                (old(ch).next_node_id(), false),
            ) && final(ch).next_node_id() == old(ch).next_node_id() + 1
                && final(ch).elems() == old(ch).elems() && final(ch).recv_nodes()
                == old(ch).recv_nodes(),
            final(ch).send_state() == old(ch).send_state(),
            final(ch).recv_state() == old(ch).recv_state(),
    {
        send(ch, msg)
    }

    /// Finish: drop this sender without cancelling.
    pub fn finish<T>(self, ch: &mut Channel<T>) -> (woken: Vec<u64>)
        requires
            old(ch).wf(),
            old(ch).send_count() > 0,
        ensures
            final(ch).wf(),
            final(ch).send_count() == old(ch).send_count() - 1,
            final(ch).elems() == old(ch).elems(),
            final(ch).bound() == old(ch).bound(),
            final(ch).recv_count() == old(ch).recv_count(),
            final(ch).next_node_id() == old(ch).next_node_id(),
            old(ch).send_count() == 1 ==> {
                &&& final(ch).send_state() == old(ch).send_state()
                &&& final(ch).recv_state() == finished_recv_state(*old(ch))
                &&& final(ch).finished() == (old(ch).recv_state() == RecvState::Normal || old(ch).finished())
                &&& woken@ == finish_woken(*old(ch))
                &&& final(ch).send_nodes() == old(ch).send_nodes()
            },
            old(ch).send_count() != 1 ==> {
                &&& final(ch).send_state() == old(ch).send_state()
                &&& final(ch).recv_state() == old(ch).recv_state()
                &&& final(ch).finished() == old(ch).finished()
                &&& final(ch).send_nodes() == old(ch).send_nodes()
                &&& final(ch).recv_nodes() == old(ch).recv_nodes()
                &&& woken@ == Seq::<u64>::empty()
            },
    {
        drop_sender(ch, false)
    }

    /// Cancel the channel.
    pub fn cancel<T>(&self, ch: &mut Channel<T>) -> (woken: Vec<u64>)
        requires
            old(ch).wf(),
        ensures
            final(ch).wf(),
            final(ch).send_state() == cancelled_send(old(ch).send_state()),
            final(ch).recv_state() == cancelled_recv(old(ch).recv_state()),
            woken@ == cancel_woken(*old(ch)),
            final(ch).elems() == old(ch).elems(),
            final(ch).bound() == old(ch).bound(),
            final(ch).finished() == old(ch).finished(),
            final(ch).next_node_id() == old(ch).next_node_id(),
            final(ch).send_count() == old(ch).send_count(),
            final(ch).recv_count() == old(ch).recv_count(),
    {
        cancel(ch)
    }

    /// Set whether dropping cancels the channel.
    pub fn set_cancel_on_drop(&mut self, cancel_on_drop: bool)
        ensures
            final(self).cancel_on_drop == cancel_on_drop,
    {
        self.cancel_on_drop = cancel_on_drop;
    }

    /// With dropping cancelling the channel or not.
    pub fn with_cancel_on_drop(self, cancel_on_drop: bool) -> (r: Self)
        ensures
            r.cancel_on_drop == cancel_on_drop,
    {
        Sender { cancel_on_drop }
    }

    /// The senders' terminal error, if sending is no longer possible.
    pub fn terminal_state<T>(&self, ch: &Channel<T>) -> (r: Option<SendErrorCause>)
        ensures
            r == send_error_spec(ch.send_state()),
    {
        send_error(ch.get_send_state())
    }

    /// Another sender handle with the same setting.
    pub fn clone<T>(&self, ch: &mut Channel<T>) -> (r: Sender)
        requires
            old(ch).wf(),
            old(ch).send_count() < u64::MAX,
        ensures
            final(ch).wf(),
            r.cancel_on_drop == self.cancel_on_drop,
            final(ch).send_count() == old(ch).send_count() + 1,
            final(ch).elems() == old(ch).elems(),
            final(ch).bound() == old(ch).bound(),
            final(ch).finished() == old(ch).finished(),
            final(ch).send_state() == old(ch).send_state(),
            final(ch).recv_state() == old(ch).recv_state(),
            final(ch).send_nodes() == old(ch).send_nodes(),
            final(ch).recv_nodes() == old(ch).recv_nodes(),
            final(ch).next_node_id() == old(ch).next_node_id(),
            final(ch).recv_count() == old(ch).recv_count(),
    {
        clone_sender(ch);
        Sender { cancel_on_drop: self.cancel_on_drop }
    }

    /// Drop this sender: cancel the channel if so set, else finish it if this was the last
    /// sender.
    pub fn drop<T>(self, ch: &mut Channel<T>) -> (woken: Vec<u64>)
        requires
            old(ch).wf(),
            old(ch).send_count() > 0,
        ensures
            final(ch).wf(),
            final(ch).send_count() == old(ch).send_count() - 1,
            final(ch).elems() == old(ch).elems(),
            final(ch).bound() == old(ch).bound(),
            final(ch).recv_count() == old(ch).recv_count(),
            final(ch).next_node_id() == old(ch).next_node_id(),
            self.cancel_on_drop ==> {
                &&& final(ch).send_state() == cancelled_send(old(ch).send_state())
                &&& final(ch).recv_state() == cancelled_recv(old(ch).recv_state())
                &&& final(ch).finished() == old(ch).finished()
                &&& woken@ == cancel_woken(*old(ch))
            },
            !self.cancel_on_drop && old(ch).send_count() == 1 ==> {
                &&& final(ch).send_state() == old(ch).send_state()
                &&& final(ch).recv_state() == finished_recv_state(*old(ch))
                &&& final(ch).finished() == (old(ch).recv_state() == RecvState::Normal || old(ch).finished())
                &&& woken@ == finish_woken(*old(ch))
                &&& final(ch).send_nodes() == old(ch).send_nodes()
            },
            !self.cancel_on_drop && old(ch).send_count() != 1 ==> {
                &&& final(ch).send_state() == old(ch).send_state()
                &&& final(ch).recv_state() == old(ch).recv_state()
                &&& final(ch).finished() == old(ch).finished()
                &&& final(ch).send_nodes() == old(ch).send_nodes()
                &&& final(ch).recv_nodes() == old(ch).recv_nodes()
                &&& woken@ == Seq::<u64>::empty()
            },
    {
        drop_sender(ch, self.cancel_on_drop)
    }
}

/// A receiver yet to be taken.
pub struct IntoReceiver;

/// A receiver.
pub struct Receiver;

impl IntoReceiver {
    /// Take the receiver: the new handle is counted and this one dropped.
    pub fn into_receiver<T>(self, ch: &mut Channel<T>) -> (r: (Receiver, Vec<u64>))
        requires
            old(ch).wf(),
            0 < old(ch).recv_count() < u64::MAX,
        ensures
            final(ch).wf(),
            r.1@ == Seq::<u64>::empty(),
            final(ch).recv_count() == old(ch).recv_count(),
            final(ch).send_state() == old(ch).send_state(),
            final(ch).recv_state() == old(ch).recv_state(),
            final(ch).elems() == old(ch).elems(),
            final(ch).bound() == old(ch).bound(),
            final(ch).finished() == old(ch).finished(),
            final(ch).send_nodes() == old(ch).send_nodes(),
            final(ch).recv_nodes() == old(ch).recv_nodes(),
            final(ch).next_node_id() == old(ch).next_node_id(),
            final(ch).send_count() == old(ch).send_count(),
    {
        clone_receiver(ch);
        let woken = drop_receiver(ch);
        (Receiver, woken)
    }
}

impl Receiver {
    /// Construct a recv future.
    pub fn recv<T>(&self, ch: &mut Channel<T>) -> (r: Recv)
        requires
            old(ch).wf(),
            old(ch).next_node_id() < u64::MAX,
        ensures
            final(ch).wf(),
            r.linked_in(*final(ch)),
            old(ch).recv_state() != RecvState::Normal ==> r.0 == Some(
                RecvInner::Cheap(old(ch).recv_state()),
            ) && *final(ch) == *old(ch),
            old(ch).recv_state() == RecvState::Normal ==> (r.0 matches Some(RecvInner::Linked(l))
                && l.node.id == old(ch).next_node_id())
                && final(ch).recv_nodes().nodes() == old(ch).recv_nodes().nodes().push(
                (old(ch).next_node_id(), false),
            ) && final(ch).next_node_id() == old(ch).next_node_id() + 1
                && final(ch).elems() == old(ch).elems() && final(ch).send_nodes()
                == old(ch).send_nodes(),
            final(ch).send_state() == old(ch).send_state(),
            final(ch).recv_state() == old(ch).recv_state(),
    {
        recv(ch)
    }

    /// The receivers' terminal state, if receiving is over.
    pub fn terminal_state<T>(&self, ch: &Channel<T>) -> (r: Option<RecvTerminalState>)
        ensures
            r == recv_terminal_state_spec(ch.recv_state()),
    {
        recv_terminal_state(ch.get_recv_state())
    }

    /// Another receiver handle.
    pub fn clone<T>(&self, ch: &mut Channel<T>) -> (r: Receiver)
        requires
            old(ch).wf(),
            old(ch).recv_count() < u64::MAX,
        ensures
            final(ch).wf(),
            final(ch).recv_count() == old(ch).recv_count() + 1,
            final(ch).elems() == old(ch).elems(),
            final(ch).bound() == old(ch).bound(),
            final(ch).finished() == old(ch).finished(),
            final(ch).send_state() == old(ch).send_state(),
            final(ch).recv_state() == old(ch).recv_state(),
            final(ch).send_nodes() == old(ch).send_nodes(),
            final(ch).recv_nodes() == old(ch).recv_nodes(),
            final(ch).next_node_id() == old(ch).next_node_id(),
            final(ch).send_count() == old(ch).send_count(),
    {
        clone_receiver(ch);
        Receiver
    }

    /// Drop this receiver: if it was the last, sending moves to the no-receivers state.
    pub fn drop<T>(self, ch: &mut Channel<T>) -> (woken: Vec<u64>)
        requires
            old(ch).wf(),
            old(ch).recv_count() > 0,
        ensures
            final(ch).wf(),
            final(ch).recv_count() == old(ch).recv_count() - 1,
            final(ch).send_state() == (if old(ch).recv_count() == 1 && old(ch).send_state()
                == SendState::Normal {
                SendState::NoReceivers
            } else {
                old(ch).send_state()
            }),
            woken@ == (if old(ch).recv_count() == 1 && old(ch).send_state() == SendState::Normal {
                woken_ids(old(ch).send_nodes().nodes())
            } else {
                Seq::<u64>::empty()
            }),
            !(old(ch).recv_count() == 1 && old(ch).send_state() == SendState::Normal)
                ==> final(ch).send_nodes() == old(ch).send_nodes(),
            final(ch).elems() == old(ch).elems(),
            final(ch).bound() == old(ch).bound(),
            final(ch).finished() == old(ch).finished(),
            final(ch).recv_state() == old(ch).recv_state(),
            final(ch).recv_nodes() == old(ch).recv_nodes(),
            final(ch).next_node_id() == old(ch).next_node_id(),
            final(ch).send_count() == old(ch).send_count(),
    {
        drop_receiver(ch)
    }
}

} // verus!
