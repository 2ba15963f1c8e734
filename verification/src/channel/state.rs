//! The channel state machine: the element queue, its bound, the queues of waiting send and recv
//! operations, and the sticky send and recv states.
//!
//! Operations that unblock waiting operations return the ids of the nodes whose wakers are to be
//! woken; the caller holds the wakers themselves.
use super::error::{
    CancelledError, ChannelLostInTransitError, ConnectionLostError, NoReceiversError,
    RecvTerminalState, SendErrorCause,
};
use super::node_queue::{
    after_wake_front, front_woken, has_id, ids_below, opt_ids, woken_ids, NodeHandle, NodeQueue,
};
use super::seg_queue::SegQueue;
use vstd::prelude::*;

verus! {

/// State of the sending side.
#[derive(Debug, Copy, Clone, PartialEq, Eq, Structural)]
pub enum SendState {
    /// Sending may still be possible.
    Normal,
    /// All receivers have been dropped.
    NoReceivers,
    /// The sender cancelled the channel.
    Cancelled,
    /// The encompassing network connection was lost.
    ConnectionLost,
    /// The recv half was sent in a networked message that will never be delivered.
    ChannelLostInTransit,
}

/// State of the receiving side.
#[derive(Debug, Copy, Clone, PartialEq, Eq, Structural)]
pub enum RecvState {
    /// Receiving may still be possible.
    Normal,
    /// The sender finished the channel and all its messages have been received.
    Finished,
    /// The sender cancelled the channel.
    Cancelled,
    /// The encompassing network connection was lost.
    ConnectionLost,
    /// The send half was sent in a networked message that will never be delivered.
    ChannelLostInTransit,
}

/// The terminal error of the senders in a send state, if it is not normal.
pub open spec fn send_error_spec(s: SendState) -> Option<SendErrorCause> {
    match s {
        SendState::Normal => None,
        SendState::NoReceivers => Some(SendErrorCause::NoReceivers(NoReceiversError)),
        SendState::Cancelled => Some(SendErrorCause::Cancelled(CancelledError)),
        SendState::ConnectionLost => Some(SendErrorCause::ConnectionLost(ConnectionLostError)),
        SendState::ChannelLostInTransit => Some(
            SendErrorCause::ChannelLostInTransit(ChannelLostInTransitError),
        ),
    }
}

/// Each terminal send state is reported as the error of the same name, and a normal one as none:
/// no receivers as `NoReceivers`, cancelled as `Cancelled`, connection lost as `ConnectionLost`,
/// lost in transit as `ChannelLostInTransit`. Likewise each terminal recv state: finished as
/// `Finished`, and the others as the recv error of the same name.
pub proof fn lemma_terminal_states_name_their_errors()
    ensures
        send_error_spec(SendState::Normal) is None,
        send_error_spec(SendState::NoReceivers) == Some(SendErrorCause::NoReceivers(NoReceiversError)),
        send_error_spec(SendState::Cancelled) == Some(SendErrorCause::Cancelled(CancelledError)),
        send_error_spec(SendState::ConnectionLost) == Some(SendErrorCause::ConnectionLost(ConnectionLostError)),
        send_error_spec(SendState::ChannelLostInTransit) == Some(
            SendErrorCause::ChannelLostInTransit(ChannelLostInTransitError),
        ),
        recv_terminal_state_spec(RecvState::Normal) is None,
        recv_terminal_state_spec(RecvState::Finished) == Some(RecvTerminalState::Finished),
        recv_terminal_state_spec(RecvState::Cancelled) == Some(
            RecvTerminalState::Error(super::error::RecvError::Cancelled(CancelledError)),
        ),
        recv_terminal_state_spec(RecvState::ConnectionLost) == Some(
            RecvTerminalState::Error(super::error::RecvError::ConnectionLost(ConnectionLostError)),
        ),
        recv_terminal_state_spec(RecvState::ChannelLostInTransit) == Some(
            RecvTerminalState::Error(super::error::RecvError::ChannelLostInTransit(ChannelLostInTransitError)),
        ),
        forall|a: SendState, b: SendState| a != b ==> #[trigger] send_error_spec(a) != #[trigger] send_error_spec(b),
        forall|a: RecvState, b: RecvState| a != b ==> #[trigger] recv_terminal_state_spec(a) != #[trigger] recv_terminal_state_spec(b),
{
}

/// The terminal state of the receivers in a recv state, if it is not normal.
pub open spec fn recv_terminal_state_spec(s: RecvState) -> Option<RecvTerminalState> {
    match s {
        RecvState::Normal => None,
        RecvState::Finished => Some(RecvTerminalState::Finished),
        RecvState::Cancelled => Some(
            RecvTerminalState::Error(super::error::RecvError::Cancelled(CancelledError)),
        ),
        RecvState::ConnectionLost => Some(
            RecvTerminalState::Error(super::error::RecvError::ConnectionLost(ConnectionLostError)),
        ),
        RecvState::ChannelLostInTransit => Some(
            RecvTerminalState::Error(
                super::error::RecvError::ChannelLostInTransit(ChannelLostInTransitError),
            ),
        ),
    }
}

/// The terminal error of the senders in a send state, if it is not normal.
pub fn send_error(s: SendState) -> (r: Option<SendErrorCause>)
    ensures
        r == send_error_spec(s),
{
    match s {
        SendState::Normal => None,
        SendState::NoReceivers => Some(SendErrorCause::NoReceivers(NoReceiversError)),
        SendState::Cancelled => Some(SendErrorCause::Cancelled(CancelledError)),
        SendState::ConnectionLost => Some(SendErrorCause::ConnectionLost(ConnectionLostError)),
        SendState::ChannelLostInTransit => Some(
            SendErrorCause::ChannelLostInTransit(ChannelLostInTransitError),
        ),
    }
}

/// The terminal state of the receivers in a recv state, if it is not normal.
pub fn recv_terminal_state(s: RecvState) -> (r: Option<RecvTerminalState>)
    ensures
        r == recv_terminal_state_spec(s),
{
    match s {
        RecvState::Normal => None,
        RecvState::Finished => Some(RecvTerminalState::Finished),
        RecvState::Cancelled => Some(
            RecvTerminalState::Error(super::error::RecvError::Cancelled(CancelledError)),
        ),
        RecvState::ConnectionLost => Some(
            RecvTerminalState::Error(super::error::RecvError::ConnectionLost(ConnectionLostError)),
        ),
        RecvState::ChannelLostInTransit => Some(
            RecvTerminalState::Error(
                super::error::RecvError::ChannelLostInTransit(ChannelLostInTransitError),
            ),
        ),
    }
}

/// Whether a queue of `len` elements is below the bound.
pub open spec fn below_bound(bound: Option<usize>, len: int) -> bool {
    match bound {
        None => true,
        Some(n) => len < n,
    }
}

/// What enqueueing `elem` does, from the given element queue, bound and node queues, to `after`,
/// waking `woken`: the element goes to the back; if the queue was empty the front recv node's
/// waker is taken, and if the queue is still below its bound the front send node's waker is taken.
pub open spec fn enqueue_effect<T>(
    elems: Seq<T>,
    bound: Option<usize>,
    recv: Seq<(u64, bool)>,
    recv_purged: bool,
    send: Seq<(u64, bool)>,
    send_purged: bool,
    elem: T,
    after: Channel<T>,
    woken: Seq<u64>,
) -> bool {
    &&& after.elems() == elems.push(elem)
    &&& after.bound() == bound
    &&& after.recv_nodes().purged() == recv_purged
    &&& after.send_nodes().purged() == send_purged
    &&& after.recv_nodes().nodes() == (if elems.len() == 0 {
        after_wake_front(recv, recv_purged)
    } else {
        recv
    })
    &&& after.send_nodes().nodes() == (if below_bound(bound, elems.len() + 1int) {
        after_wake_front(send, send_purged)
    } else {
        send
    })
    &&& woken == (if elems.len() == 0 {
        opt_ids(front_woken(recv, recv_purged))
    } else {
        Seq::empty()
    }) + (if below_bound(bound, elems.len() + 1int) {
        opt_ids(front_woken(send, send_purged))
    } else {
        Seq::empty()
    })
}

/// Shared state of a channel.
pub struct Channel<T> {
    elems: SegQueue<T>,
    bound: Option<usize>,
    send_nodes: NodeQueue,
    recv_nodes: NodeQueue,
    finished: bool,
    send_state: SendState,
    recv_state: RecvState,
    next_node_id: u64,
    send_count: u64,
    recv_count: u64,
}

impl<T> Channel<T> {
    /// The buffered elements, front first.
    pub closed spec fn elems(&self) -> Seq<T> {
        self.elems@
    }

    /// The maximum number of buffered elements, if any.
    pub closed spec fn bound(&self) -> Option<usize> {
        self.bound
    }

    /// The waiting send operations.
    pub closed spec fn send_nodes(&self) -> NodeQueue {
        self.send_nodes
    }

    /// The waiting recv operations.
    pub closed spec fn recv_nodes(&self) -> NodeQueue {
        self.recv_nodes
    }

    /// Whether the sending side has finished the channel.
    pub closed spec fn finished(&self) -> bool {
        self.finished
    }

    /// The send state.
    pub closed spec fn send_state(&self) -> SendState {
        self.send_state
    }

    /// The recv state.
    pub closed spec fn recv_state(&self) -> RecvState {
        self.recv_state
    }

    /// The id the next node will get.
    pub closed spec fn next_node_id(&self) -> u64 {
        self.next_node_id
    }

    /// The number of sender handles.
    pub closed spec fn send_count(&self) -> u64 {
        self.send_count
    }

    /// The number of receiver handles.
    pub closed spec fn recv_count(&self) -> u64 {
        self.recv_count
    }

    /// The invariant: the node queues are well-formed and their nodes were minted here; a node
    /// queue is purged exactly when its side's state is not normal; and while receiving is normal
    /// on a finished channel, some element remains.
    pub open spec fn wf(&self) -> bool {
        &&& self.send_nodes().wf()
        &&& self.recv_nodes().wf()
        &&& ids_below(self.send_nodes().nodes(), self.next_node_id())
        &&& ids_below(self.recv_nodes().nodes(), self.next_node_id())
        &&& (self.send_state() != SendState::Normal <==> self.send_nodes().purged())
        &&& (self.recv_state() != RecvState::Normal <==> self.recv_nodes().purged())
        &&& (self.recv_state() == RecvState::Normal && self.finished()) ==> self.elems().len() > 0
    }

    /// Construct an empty, unbounded channel with one sender and one receiver.
    pub fn new() -> (r: Self)
        ensures
            r.wf(),
            r.elems() == Seq::<T>::empty(),
            r.bound() is None,
            r.send_nodes().nodes() == Seq::<(u64, bool)>::empty(),
            r.recv_nodes().nodes() == Seq::<(u64, bool)>::empty(),
            !r.finished(),
            r.send_state() == SendState::Normal,
            r.recv_state() == RecvState::Normal,
            r.next_node_id() == 0,
            r.send_count() == 1,
            r.recv_count() == 1,
    {
        Channel {
            elems: SegQueue::new(),
            bound: None,
            send_nodes: NodeQueue::new(),
            recv_nodes: NodeQueue::new(),
            finished: false,
            send_state: SendState::Normal,
            recv_state: RecvState::Normal,
            next_node_id: 0,
            send_count: 1,
            recv_count: 1,
        }
    }

    /// The send state.
    pub fn get_send_state(&self) -> (r: SendState)
        ensures
            r == self.send_state(),
    {
        self.send_state
    }

    /// The recv state.
    pub fn get_recv_state(&self) -> (r: RecvState)
        ensures
            r == self.recv_state(),
    {
        self.recv_state
    }

    /// The id the next node will get.
    pub fn get_next_node_id(&self) -> (r: u64)
        ensures
            r == self.next_node_id(),
    {
        self.next_node_id
    }

    /// The number of sender handles.
    pub fn get_send_count(&self) -> (r: u64)
        ensures
            r == self.send_count(),
    {
        self.send_count
    }

    /// The number of receiver handles.
    pub fn get_recv_count(&self) -> (r: u64)
        ensures
            r == self.recv_count(),
    {
        self.recv_count
    }

    /// The number of buffered elements.
    pub fn elems_len(&self) -> (r: usize)
        ensures
            r == self.elems().len(),
    {
        self.elems.len()
    }

    /// Set a maximum length.
    pub fn set_bound(&mut self, bound: usize)
        requires
            old(self).wf(),
        ensures
            final(self).wf(),
            final(self).bound() == Some(bound),
            final(self).elems() == old(self).elems(),
            final(self).send_nodes() == old(self).send_nodes(),
            final(self).recv_nodes() == old(self).recv_nodes(),
            final(self).finished() == old(self).finished(),
            final(self).send_state() == old(self).send_state(),
            final(self).recv_state() == old(self).recv_state(),
            final(self).next_node_id() == old(self).next_node_id(),
            final(self).send_count() == old(self).send_count(),
            final(self).recv_count() == old(self).recv_count(),
    {
        self.bound = Some(bound);
    }

    /// Push the element to the back. If the queue was empty, take the waker of the front recv
    /// node; if the queue is still below its bound, take the waker of the front send node.
    /// Returns the ids of the nodes to wake.
    pub fn enqueue(&mut self, elem: T) -> (woken: Vec<u64>)
        requires
            old(self).wf(),
        ensures
            final(self).wf(),
            enqueue_effect(
                old(self).elems(),
                old(self).bound(),
                old(self).recv_nodes().nodes(),
                old(self).recv_nodes().purged(),
                old(self).send_nodes().nodes(),
                old(self).send_nodes().purged(),
                elem,
                *final(self),
                woken@,
            ),
            final(self).finished() == old(self).finished(),
            final(self).send_state() == old(self).send_state(),
            final(self).recv_state() == old(self).recv_state(),
            final(self).next_node_id() == old(self).next_node_id(),
            final(self).send_count() == old(self).send_count(),
            final(self).recv_count() == old(self).recv_count(),
    {
        let mut woken: Vec<u64> = Vec::new();
        self.elems.push(elem);
        if self.elems.len() == 1 {
            if let Some(id) = self.recv_nodes.wake_front() {
                woken.push(id);
            }
        }
        let below = match self.bound {
            None => true,
            Some(n) => self.elems.len() < n,
        };
        if below {
            let ghost w = woken@;
            if let Some(id) = self.send_nodes.wake_front() {
                woken.push(id);
            }
            assert(woken@ =~= w + opt_ids(front_woken(old(self).send_nodes().nodes(), old(self).send_nodes().purged())));
        }
        proof {
            lemma_after_wake_ids(old(self).recv_nodes().nodes(), old(self).recv_nodes().purged(), self.next_node_id);
            lemma_after_wake_ids(old(self).send_nodes().nodes(), old(self).send_nodes().purged(), self.next_node_id);
        }
        if self.elems.len() == 1 {
            assert(woken@ =~= opt_ids(front_woken(old(self).recv_nodes().nodes(), old(self).recv_nodes().purged()))
                + (if below_bound(old(self).bound(), old(self).elems().len() + 1int) {
                    opt_ids(front_woken(old(self).send_nodes().nodes(), old(self).send_nodes().purged()))
                } else {
                    Seq::empty()
                }));
        } else {
            assert(woken@ =~= Seq::<u64>::empty() + (if below_bound(old(self).bound(), old(self).elems().len() + 1int) {
                opt_ids(front_woken(old(self).send_nodes().nodes(), old(self).send_nodes().purged()))
            } else {
                Seq::empty()
            }));
        }
        woken
    }

    /// Mark the sending side as having finished the channel, if not already done. If receiving is
    /// normal and no element remains, receiving becomes finished and the recv queue is purged.
    /// Returns the ids of the nodes to wake.
    pub fn finish(&mut self) -> (woken: Vec<u64>)
        requires
            old(self).wf(),
        ensures
            final(self).wf(),
            final(self).finished(),
            final(self).recv_state() == (if !old(self).finished() && old(self).recv_state()
                == RecvState::Normal && old(self).elems().len() == 0 {
                RecvState::Finished
            } else {
                old(self).recv_state()
            }),
            woken@ == (if !old(self).finished() && old(self).recv_state() == RecvState::Normal
                && old(self).elems().len() == 0 {
                woken_ids(old(self).recv_nodes().nodes())
            } else {
                Seq::empty()
            }),
            final(self).recv_state() != RecvState::Normal ==> final(self).recv_nodes().nodes()
                == Seq::<(u64, bool)>::empty(),
            final(self).recv_state() == RecvState::Normal ==> final(self).recv_nodes()
                == old(self).recv_nodes(),
            final(self).elems() == old(self).elems(),
            final(self).send_nodes() == old(self).send_nodes(),
            final(self).bound() == old(self).bound(),
            final(self).send_state() == old(self).send_state(),
            final(self).next_node_id() == old(self).next_node_id(),
            final(self).send_count() == old(self).send_count(),
            final(self).recv_count() == old(self).recv_count(),
    {
        if self.finished {
            return Vec::new();
        }
        self.finished = true;
        if self.recv_state == RecvState::Normal && self.elems.len() == 0 {
            self.recv_state = RecvState::Finished;
            let woken = self.recv_nodes.purge();
            woken
        } else {
            Vec::new()
        }
    }

    /// Move the send state to the error state `error`, if it is normal, purging the send queue.
    /// Returns the ids of the nodes to wake.
    pub fn set_send_error(&mut self, error: SendState) -> (woken: Vec<u64>)
        requires
            old(self).wf(),
            error != SendState::Normal,
        ensures
            final(self).wf(),
            final(self).send_state() == (if old(self).send_state() == SendState::Normal {
                error
            } else {
                old(self).send_state()
            }),
            woken@ == (if old(self).send_state() == SendState::Normal {
                woken_ids(old(self).send_nodes().nodes())
            } else {
                Seq::empty()
            }),
            final(self).send_nodes().nodes() == Seq::<(u64, bool)>::empty(),
            final(self).elems() == old(self).elems(),
            final(self).recv_nodes() == old(self).recv_nodes(),
            final(self).finished() == old(self).finished(),
            final(self).bound() == old(self).bound(),
            final(self).recv_state() == old(self).recv_state(),
            final(self).next_node_id() == old(self).next_node_id(),
            final(self).send_count() == old(self).send_count(),
            final(self).recv_count() == old(self).recv_count(),
    {
        if self.send_state == SendState::Normal {
            self.send_state = error;
            self.send_nodes.purge()
        } else {
            Vec::new()
        }
    }

    /// Move the recv state to the error state `error`, if it is normal, purging the recv queue.
    /// Returns the ids of the nodes to wake.
    pub fn set_recv_error(&mut self, error: RecvState) -> (woken: Vec<u64>)
        requires
            old(self).wf(),
            error != RecvState::Normal,
            error != RecvState::Finished,
        ensures
            final(self).wf(),
            final(self).recv_state() == (if old(self).recv_state() == RecvState::Normal {
                error
            } else {
                old(self).recv_state()
            }),
            woken@ == (if old(self).recv_state() == RecvState::Normal {
                woken_ids(old(self).recv_nodes().nodes())
            } else {
                Seq::empty()
            }),
            final(self).recv_nodes().nodes() == Seq::<(u64, bool)>::empty(),
            final(self).elems() == old(self).elems(),
            final(self).send_nodes() == old(self).send_nodes(),
            final(self).finished() == old(self).finished(),
            final(self).bound() == old(self).bound(),
            final(self).send_state() == old(self).send_state(),
            final(self).next_node_id() == old(self).next_node_id(),
            final(self).send_count() == old(self).send_count(),
            final(self).recv_count() == old(self).recv_count(),
    {
        if self.recv_state == RecvState::Normal {
            self.recv_state = error;
            self.recv_nodes.purge()
        } else {
            Vec::new()
        }
    }
}

/// Linked state of a send future: the element to send and its node in the send queue.
pub struct SendInnerLinked<T> {
    pub elem: T,
    pub node: NodeHandle,
}

/// State of a send future that has not yet resolved or been cancelled.
pub enum SendInner<T> {
    /// Linked into the send queue.
    Linked(SendInnerLinked<T>),
    /// Not linked: resolves at once to the error of the given send state.
    Cheap(SendState, T),
}

/// Send future; `None` once resolved or cancelled.
pub struct Send<T>(pub Option<SendInner<T>>);

/// Linked state of a recv future: its node in the recv queue.
pub struct RecvInnerLinked {
    pub node: NodeHandle,
}

/// State of a recv future that has not yet resolved or been cancelled.
pub enum RecvInner {
    /// Linked into the recv queue.
    Linked(RecvInnerLinked),
    /// Not linked: resolves at once to the given recv state.
    Cheap(RecvState),
}

/// Recv future; `None` once resolved or cancelled.
pub struct Recv(pub Option<RecvInner>);

/// Outcome of polling a send future.
pub enum SendPoll<T> {
    /// Not ready; a waker is installed in the future's node.
    Pending,
    /// Resolved: `Ok` when the element was sent, else the send state and the element; and
    /// whether the future was linked to the channel.
    Ready(Result<(), (SendState, T)>, bool),
}

/// Outcome of polling a recv future.
pub enum RecvPoll<T> {
    /// Not ready; a waker is installed in the future's node.
    Pending,
    /// Resolved: `Ok` with the element received, else the recv state; and whether the future was
    /// linked to the channel.
    Ready(Result<T, RecvState>, bool),
}

impl<T> Send<T> {
    /// A linked future's node is linked, and in the send queue while sending is normal.
    pub open spec fn linked_in(&self, ch: Channel<T>) -> bool {
        match self.0 {
            Some(SendInner::Linked(l)) => l.node.linked && (ch.send_state() == SendState::Normal
                ==> has_id(ch.send_nodes().nodes(), l.node.id)),
            _ => true,
        }
    }

    /// Construct a future that resolves at once to the error of `send_state`.
    pub fn cheap(send_state: SendState, elem: T) -> (r: Self)
        ensures
            r.0 == Some(SendInner::Cheap(send_state, elem)),
    {
        Send(Some(SendInner::Cheap(send_state, elem)))
    }

    /// Whether this future is resolved or cancelled.
    pub fn is_terminated(&self) -> (r: bool)
        ensures
            r == (self.0 is None),
    {
        self.0.is_none()
    }

    /// Poll: resolve to an error if sending is not normal; stay pending, with a waker installed,
    /// unless this future is at the front of the send queue and the channel is below its bound;
    /// else unlink, enqueue the element and resolve to `Ok`. Returns the ids of nodes to wake.
    pub fn poll(&mut self, ch: &mut Channel<T>) -> (r: (SendPoll<T>, Vec<u64>))
        requires
            old(ch).wf(),
            old(self).0 is Some,
            old(self).linked_in(*old(ch)),
        ensures
            final(ch).wf(),
            final(self).linked_in(*final(ch)),
            final(ch).send_state() == old(ch).send_state(),
            final(ch).recv_state() == old(ch).recv_state(),
            final(ch).finished() == old(ch).finished(),
            final(ch).next_node_id() == old(ch).next_node_id(),
            final(ch).send_count() == old(ch).send_count(),
            final(ch).recv_count() == old(ch).recv_count(),
            match old(self).0 {
                Some(SendInner::Cheap(s, elem)) => r.0 == SendPoll::Ready(Err((s, elem)), false)
                    && *final(ch) == *old(ch) && final(self).0 is None,
                Some(SendInner::Linked(l)) => if old(ch).send_state() != SendState::Normal {
                    r.0 == SendPoll::Ready(Err((old(ch).send_state(), l.elem)), true)
                        && *final(ch) == *old(ch) && final(self).0 is None
                } else if old(ch).send_nodes().nodes()[0].0 != l.node.id || !below_bound(
                    old(ch).bound(),
                    old(ch).elems().len() as int,
                ) {
                    r.0 == SendPoll::<T>::Pending && r.1@ == Seq::<u64>::empty()
                        && *final(self) == *old(self) && final(ch).elems() == old(ch).elems()
                        && final(ch).recv_nodes() == old(ch).recv_nodes()
                        && !final(ch).send_nodes().purged()
                        && final(ch).send_nodes().nodes() == old(ch).send_nodes().nodes().update(
                        old(ch).send_nodes().index_of(l.node.id),
                        (l.node.id, true),
                    )
                } else {
                    r.0 == SendPoll::<T>::Ready(Ok(()), true) && final(self).0 is None
                        && enqueue_effect(
                        old(ch).elems(),
                        old(ch).bound(),
                        old(ch).recv_nodes().nodes(),
                        old(ch).recv_nodes().purged(),
                        old(ch).send_nodes().nodes().remove(old(ch).send_nodes().index_of(l.node.id)),
                        false,
                        l.elem,
                        *final(ch),
                        r.1@,
                    )
                },
                None => false,
            },
    {
        let inner = self.0.take();
        match inner {
            Some(SendInner::Cheap(s, elem)) => (SendPoll::Ready(Err((s, elem)), false), Vec::new()),
            Some(SendInner::Linked(l)) => {
                let SendInnerLinked { elem, mut node } = l;
                if ch.send_state != SendState::Normal {
                    return (SendPoll::Ready(Err((ch.send_state, elem)), true), Vec::new());
                }
                let is_front = ch.send_nodes.is_front(&node);
                let below = match ch.bound {
                    None => true,
                    Some(n) => ch.elems.len() < n,
                };
                if !is_front || !below {
                    ch.send_nodes.set_waker(&node, true);
                    proof {
                        lemma_update_keeps_ids(old(ch).send_nodes().nodes(), old(ch).send_nodes().index_of(node.id), (node.id, true), ch.next_node_id);
                    }
                    self.0 = Some(SendInner::Linked(SendInnerLinked { elem, node }));
                    return (SendPoll::Pending, Vec::new());
                }
                ch.send_nodes.remove(&mut node);
                proof {
                    lemma_remove_keeps_ids(old(ch).send_nodes().nodes(), old(ch).send_nodes().index_of(node.id), ch.next_node_id);
                }
                let woken = ch.enqueue(elem);
                (SendPoll::Ready(Ok(()), true), woken)
            },
            None => (SendPoll::Pending, Vec::new()),
        }
    }

    /// Cancel, if not already resolved or cancelled, giving the element back (and whether the
    /// future was linked); unlinking this future's node, and if it was at the front of the send
    /// queue and the channel is below its bound, taking the next front node's waker.
    pub fn cancel(&mut self, ch: &mut Channel<T>) -> (r: (Option<(T, bool)>, Vec<u64>))
        requires
            old(ch).wf(),
            old(self).linked_in(*old(ch)),
        ensures
            final(ch).wf(),
            final(self).0 is None,
            final(ch).elems() == old(ch).elems(),
            final(ch).recv_nodes() == old(ch).recv_nodes(),
            final(ch).send_nodes().purged() == old(ch).send_nodes().purged(),
            final(ch).bound() == old(ch).bound(),
            final(ch).send_state() == old(ch).send_state(),
            final(ch).recv_state() == old(ch).recv_state(),
            final(ch).finished() == old(ch).finished(),
            final(ch).next_node_id() == old(ch).next_node_id(),
            final(ch).send_count() == old(ch).send_count(),
            final(ch).recv_count() == old(ch).recv_count(),
            match old(self).0 {
                None => r.0 is None && *final(ch) == *old(ch),
                Some(SendInner::Cheap(_, elem)) => r.0 == Some((elem, false)) && *final(ch)
                    == *old(ch),
                Some(SendInner::Linked(l)) => r.0 == Some((l.elem, true)) && if old(ch).send_state()
                    != SendState::Normal {
                    *final(ch) == *old(ch) && r.1@ == Seq::<u64>::empty()
                } else {
                    let removed = old(ch).send_nodes().nodes().remove(
                        old(ch).send_nodes().index_of(l.node.id),
                    );
                    if old(ch).send_nodes().nodes()[0].0 == l.node.id && below_bound(
                        old(ch).bound(),
                        old(ch).elems().len() as int,
                    ) {
                        final(ch).send_nodes().nodes() == after_wake_front(removed, false) && r.1@
                            == opt_ids(front_woken(removed, false))
                    } else {
                        final(ch).send_nodes().nodes() == removed && r.1@ == Seq::<u64>::empty()
                    }
                },
            },
    {
        let inner = self.0.take();
        match inner {
            None => (None, Vec::new()),
            Some(SendInner::Cheap(_, elem)) => (Some((elem, false)), Vec::new()),
            Some(SendInner::Linked(l)) => {
                let SendInnerLinked { elem, mut node } = l;
                if ch.send_state != SendState::Normal {
                    return (Some((elem, true)), Vec::new());
                }
                let is_front = ch.send_nodes.is_front(&node);
                ch.send_nodes.remove(&mut node);
                proof {
                    lemma_remove_keeps_ids(old(ch).send_nodes().nodes(), old(ch).send_nodes().index_of(node.id), ch.next_node_id);
                }
                let below = match ch.bound {
                    None => true,
                    Some(n) => ch.elems.len() < n,
                };
                let mut woken: Vec<u64> = Vec::new();
                if is_front && below {
                    let ghost before = ch.send_nodes.nodes();
                    if let Some(id) = ch.send_nodes.wake_front() {
                        woken.push(id);
                    }
                    proof {
                        lemma_after_wake_ids(before, false, ch.next_node_id);
                        assert(woken@ =~= opt_ids(front_woken(before, false)));
                    }
                }
                (Some((elem, true)), woken)
            },
        }
    }

    /// Drop any waker installed in this future's node.
    pub fn drop_wakers(&mut self, ch: &mut Channel<T>)
        requires
            old(ch).wf(),
            old(self).linked_in(*old(ch)),
        ensures
            final(ch).wf(),
            *final(self) == *old(self),
            final(self).linked_in(*final(ch)),
            final(ch).elems() == old(ch).elems(),
            final(ch).recv_nodes() == old(ch).recv_nodes(),
            final(ch).send_nodes().purged() == old(ch).send_nodes().purged(),
            final(ch).bound() == old(ch).bound(),
            final(ch).send_state() == old(ch).send_state(),
            final(ch).recv_state() == old(ch).recv_state(),
            final(ch).finished() == old(ch).finished(),
            final(ch).next_node_id() == old(ch).next_node_id(),
            final(ch).send_count() == old(ch).send_count(),
            final(ch).recv_count() == old(ch).recv_count(),
            match old(self).0 {
                Some(SendInner::Linked(l)) => old(ch).send_state() == SendState::Normal ==> final(ch).send_nodes().nodes() == old(ch).send_nodes().nodes().update(
                    old(ch).send_nodes().index_of(l.node.id),
                    (l.node.id, false),
                ),
                _ => true,
            },
            !(old(self).0 matches Some(SendInner::Linked(_)) && old(ch).send_state()
                == SendState::Normal) ==> *final(ch) == *old(ch),
    {
        match &self.0 {
            Some(SendInner::Linked(l)) => {
                if ch.send_state == SendState::Normal {
                    ch.send_nodes.set_waker(&l.node, false);
                    proof {
                        lemma_update_keeps_ids(old(ch).send_nodes().nodes(), old(ch).send_nodes().index_of(l.node.id), (l.node.id, false), ch.next_node_id);
                    }
                }
            },
            _ => {},
        }
    }
}

impl Recv {
    /// A linked future's node is linked, and in the recv queue while receiving is normal.
    pub open spec fn linked_in<T>(&self, ch: Channel<T>) -> bool {
        match self.0 {
            Some(RecvInner::Linked(l)) => l.node.linked && (ch.recv_state() == RecvState::Normal
                ==> has_id(ch.recv_nodes().nodes(), l.node.id)),
            _ => true,
        }
    }

    /// Construct a future that resolves at once to `recv_state`.
    pub fn cheap(recv_state: RecvState) -> (r: Self)
        ensures
            r.0 == Some(RecvInner::Cheap(recv_state)),
    {
        Recv(Some(RecvInner::Cheap(recv_state)))
    }

    /// Whether this future is resolved or cancelled.
    pub fn is_terminated(&self) -> (r: bool)
        ensures
            r == (self.0 is None),
    {
        self.0.is_none()
    }

    /// Poll: resolve to the recv state if receiving is not normal; stay pending, with a waker
    /// installed, unless this future is at the front of the recv queue and an element is
    /// buffered; else take the front element and unlink. Then, if no element remains, a finished
    /// channel moves to the finished state (purging the recv queue); if some remain, the next
    /// recv node is woken; and if this relieved backpressure, the front send node is woken.
    pub fn poll<T>(&mut self, ch: &mut Channel<T>) -> (r: (RecvPoll<T>, Vec<u64>))
        requires
            old(ch).wf(),
            old(self).0 is Some,
            old(self).linked_in(*old(ch)),
        ensures
            final(ch).wf(),
            final(self).linked_in(*final(ch)),
            final(ch).send_state() == old(ch).send_state(),
            final(ch).finished() == old(ch).finished(),
            final(ch).bound() == old(ch).bound(),
            final(ch).next_node_id() == old(ch).next_node_id(),
            final(ch).send_count() == old(ch).send_count(),
            final(ch).recv_count() == old(ch).recv_count(),
            final(ch).send_nodes().purged() == old(ch).send_nodes().purged(),
            match old(self).0 {
                Some(RecvInner::Cheap(s)) => r.0 == RecvPoll::<T>::Ready(Err(s), false) && *final(ch)
                    == *old(ch) && final(self).0 is None,
                Some(RecvInner::Linked(l)) => if old(ch).recv_state() != RecvState::Normal {
                    r.0 == RecvPoll::<T>::Ready(Err(old(ch).recv_state()), true) && *final(ch)
                        == *old(ch) && final(self).0 is None
                } else if old(ch).recv_nodes().nodes()[0].0 != l.node.id || old(ch).elems().len()
                    == 0 {
                    r.0 == RecvPoll::<T>::Pending && r.1@ == Seq::<u64>::empty() && *final(self)
                        == *old(self) && final(ch).elems() == old(ch).elems() && final(ch).send_nodes()
                        == old(ch).send_nodes() && final(ch).recv_state() == old(ch).recv_state()
                        && !final(ch).recv_nodes().purged()
                        && final(ch).recv_nodes().nodes() == old(ch).recv_nodes().nodes().update(
                        old(ch).recv_nodes().index_of(l.node.id),
                        (l.node.id, true),
                    )
                } else {
                    let removed = old(ch).recv_nodes().nodes().remove(
                        old(ch).recv_nodes().index_of(l.node.id),
                    );
                    let rest = old(ch).elems().drop_first();
                    let relieved = old(ch).bound() == Some(old(ch).elems().len() as usize);
                    let woken_recv = if rest.len() == 0 {
                        if old(ch).finished() {
                            woken_ids(removed)
                        } else {
                            Seq::empty()
                        }
                    } else {
                        opt_ids(front_woken(removed, false))
                    };
                    let woken_send = if relieved {
                        opt_ids(front_woken(old(ch).send_nodes().nodes(), old(ch).send_nodes().purged()))
                    } else {
                        Seq::empty()
                    };
                    &&& r.0 == RecvPoll::<T>::Ready(Ok(old(ch).elems()[0]), true)
                    &&& final(self).0 is None
                    &&& final(ch).elems() == rest
                    &&& final(ch).recv_state() == (if rest.len() == 0 && old(ch).finished() {
                        RecvState::Finished
                    } else {
                        RecvState::Normal
                    })
                    &&& final(ch).recv_nodes().nodes() == (if rest.len() == 0 {
                        if old(ch).finished() {
                            Seq::empty()
                        } else {
                            removed
                        }
                    } else {
                        after_wake_front(removed, false)
                    })
                    &&& final(ch).send_nodes().nodes() == (if relieved {
                        after_wake_front(old(ch).send_nodes().nodes(), old(ch).send_nodes().purged())
                    } else {
                        old(ch).send_nodes().nodes()
                    })
                    &&& r.1@ == woken_recv + woken_send
                },
                None => false,
            },
    {
        let inner = self.0.take();
        match inner {
            Some(RecvInner::Cheap(s)) => (RecvPoll::Ready(Err(s), false), Vec::new()),
            Some(RecvInner::Linked(l)) => {
                let RecvInnerLinked { mut node } = l;
                if ch.recv_state != RecvState::Normal {
                    return (RecvPoll::Ready(Err(ch.recv_state), true), Vec::new());
                }
                let is_front = ch.recv_nodes.is_front(&node);
                if !is_front || ch.elems.len() == 0 {
                    ch.recv_nodes.set_waker(&node, true);
                    proof {
                        lemma_update_keeps_ids(old(ch).recv_nodes().nodes(), old(ch).recv_nodes().index_of(node.id), (node.id, true), ch.next_node_id);
                    }
                    self.0 = Some(RecvInner::Linked(RecvInnerLinked { node }));
                    return (RecvPoll::Pending, Vec::new());
                }
                let elem = match ch.elems.pop() {
                    Some(e) => e,
                    None => {
                        return (RecvPoll::Pending, Vec::new());
                    },
                };
                ch.recv_nodes.remove(&mut node);
                proof {
                    lemma_remove_keeps_ids(old(ch).recv_nodes().nodes(), old(ch).recv_nodes().index_of(node.id), ch.next_node_id);
                }
                let mut woken: Vec<u64> = Vec::new();
                if ch.elems.len() == 0 {
                    if ch.finished {
                        ch.recv_state = RecvState::Finished;
                        woken = ch.recv_nodes.purge();
                    }
                } else {
                    let ghost before = ch.recv_nodes.nodes();
                    if let Some(id) = ch.recv_nodes.wake_front() {
                        woken.push(id);
                    }
                    proof {
                        lemma_after_wake_ids(before, false, ch.next_node_id);
                        assert(woken@ =~= opt_ids(front_woken(before, false)));
                    }
                }
                let ghost w1 = woken@;
                let relieved = match ch.bound {
                    None => false,
                    Some(n) => n == ch.elems.len() + 1,
                };
                if relieved {
                    let ghost before = ch.send_nodes.nodes();
                    if let Some(id) = ch.send_nodes.wake_front() {
                        woken.push(id);
                    }
                    proof {
                        lemma_after_wake_ids(before, ch.send_nodes.purged(), ch.next_node_id);
                        assert(woken@ =~= w1 + opt_ids(front_woken(before, old(ch).send_nodes().purged())));
                    }
                } else {
                    assert(woken@ =~= w1 + Seq::<u64>::empty());
                }
                (RecvPoll::Ready(Ok(elem), true), woken)
            },
            None => (RecvPoll::Pending, Vec::new()),
        }
    }

    /// Cancel, if not already resolved or cancelled, returning whether the future was linked;
    /// unlinking this future's node, and if it was at the front of the recv queue and an element
    /// is buffered, taking the next front node's waker.
    pub fn cancel<T>(&mut self, ch: &mut Channel<T>) -> (r: (bool, Vec<u64>))
        requires
            old(ch).wf(),
            old(self).linked_in(*old(ch)),
        ensures
            final(ch).wf(),
            final(self).0 is None,
            final(ch).elems() == old(ch).elems(),
            final(ch).send_nodes() == old(ch).send_nodes(),
            final(ch).recv_nodes().purged() == old(ch).recv_nodes().purged(),
            final(ch).bound() == old(ch).bound(),
            final(ch).send_state() == old(ch).send_state(),
            final(ch).recv_state() == old(ch).recv_state(),
            final(ch).finished() == old(ch).finished(),
            final(ch).next_node_id() == old(ch).next_node_id(),
            final(ch).send_count() == old(ch).send_count(),
            final(ch).recv_count() == old(ch).recv_count(),
            match old(self).0 {
                None => !r.0 && *final(ch) == *old(ch),
                Some(RecvInner::Cheap(_)) => !r.0 && *final(ch) == *old(ch),
                Some(RecvInner::Linked(l)) => r.0 && if old(ch).recv_state() != RecvState::Normal {
                    *final(ch) == *old(ch) && r.1@ == Seq::<u64>::empty()
                } else {
                    let removed = old(ch).recv_nodes().nodes().remove(
                        old(ch).recv_nodes().index_of(l.node.id),
                    );
                    if old(ch).recv_nodes().nodes()[0].0 == l.node.id && old(ch).elems().len() != 0 {
                        final(ch).recv_nodes().nodes() == after_wake_front(removed, false) && r.1@
                            == opt_ids(front_woken(removed, false))
                    } else {
                        final(ch).recv_nodes().nodes() == removed && r.1@ == Seq::<u64>::empty()
                    }
                },
            },
    {
        let inner = self.0.take();
        match inner {
            None => (false, Vec::new()),
            Some(RecvInner::Cheap(_)) => (false, Vec::new()),
            Some(RecvInner::Linked(l)) => {
                let RecvInnerLinked { mut node } = l;
                if ch.recv_state != RecvState::Normal {
                    return (true, Vec::new());
                }
                let is_front = ch.recv_nodes.is_front(&node);
                ch.recv_nodes.remove(&mut node);
                proof {
                    lemma_remove_keeps_ids(old(ch).recv_nodes().nodes(), old(ch).recv_nodes().index_of(node.id), ch.next_node_id);
                }
                let mut woken: Vec<u64> = Vec::new();
                if is_front && ch.elems.len() != 0 {
                    let ghost before = ch.recv_nodes.nodes();
                    if let Some(id) = ch.recv_nodes.wake_front() {
                        woken.push(id);
                    }
                    proof {
                        lemma_after_wake_ids(before, false, ch.next_node_id);
                        assert(woken@ =~= opt_ids(front_woken(before, false)));
                    }
                }
                (true, woken)
            },
        }
    }

    /// Drop any waker installed in this future's node.
    pub fn drop_wakers<T>(&mut self, ch: &mut Channel<T>)
        requires
            old(ch).wf(),
            old(self).linked_in(*old(ch)),
        ensures
            final(ch).wf(),
            *final(self) == *old(self),
            final(self).linked_in(*final(ch)),
            final(ch).elems() == old(ch).elems(),
            final(ch).send_nodes() == old(ch).send_nodes(),
            final(ch).recv_nodes().purged() == old(ch).recv_nodes().purged(),
            final(ch).bound() == old(ch).bound(),
            final(ch).send_state() == old(ch).send_state(),
            final(ch).recv_state() == old(ch).recv_state(),
            final(ch).finished() == old(ch).finished(),
            final(ch).next_node_id() == old(ch).next_node_id(),
            final(ch).send_count() == old(ch).send_count(),
            final(ch).recv_count() == old(ch).recv_count(),
            match old(self).0 {
                Some(RecvInner::Linked(l)) => old(ch).recv_state() == RecvState::Normal ==> final(ch).recv_nodes().nodes() == old(ch).recv_nodes().nodes().update(
                    old(ch).recv_nodes().index_of(l.node.id),
                    (l.node.id, false),
                ),
                _ => true,
            },
            !(old(self).0 matches Some(RecvInner::Linked(_)) && old(ch).recv_state()
                == RecvState::Normal) ==> *final(ch) == *old(ch),
    {
        match &self.0 {
            Some(RecvInner::Linked(l)) => {
                if ch.recv_state == RecvState::Normal {
                    ch.recv_nodes.set_waker(&l.node, false);
                    proof {
                        lemma_update_keeps_ids(old(ch).recv_nodes().nodes(), old(ch).recv_nodes().index_of(l.node.id), (l.node.id, false), ch.next_node_id);
                    }
                }
            },
            _ => {},
        }
    }
}

impl<T> Channel<T> {
    /// Construct a send future linked into the back of the send queue with a fresh node.
    pub fn send(&mut self, elem: T) -> (r: Send<T>)
        requires
            old(self).wf(),
            old(self).send_state() == SendState::Normal,
            old(self).next_node_id() < u64::MAX,
        ensures
            final(self).wf(),
            r.linked_in(*final(self)),
            r.0 matches Some(SendInner::Linked(l)) && l.elem == elem && l.node.id == old(self).next_node_id(),
            final(self).send_nodes().nodes() == old(self).send_nodes().nodes().push((old(self).next_node_id(), false)),
            !final(self).send_nodes().purged(),
            final(self).next_node_id() == old(self).next_node_id() + 1,
            final(self).elems() == old(self).elems(),
            final(self).recv_nodes() == old(self).recv_nodes(),
            final(self).bound() == old(self).bound(),
            final(self).finished() == old(self).finished(),
            final(self).send_state() == old(self).send_state(),
            final(self).recv_state() == old(self).recv_state(),
            final(self).send_count() == old(self).send_count(),
            final(self).recv_count() == old(self).recv_count(),
    {
        let mut node = NodeHandle::new(self.next_node_id);
        proof {
            if has_id(self.send_nodes.nodes(), node.id) {
                let k = choose|k: int| 0 <= k < self.send_nodes.nodes().len() && #[trigger] self.send_nodes.nodes()[k].0 == node.id;
            }
        }
        self.send_nodes.push(&mut node);
        self.next_node_id = self.next_node_id + 1;
        proof {
            let s = self.send_nodes.nodes();
            assert forall|i: int| 0 <= i < s.len() implies #[trigger] s[i].0 < self.next_node_id by {
                if i < s.len() - 1 {
                    assert(s[i] == old(self).send_nodes().nodes()[i]);
                }
            }
            let r = self.recv_nodes.nodes();
            assert forall|i: int| 0 <= i < r.len() implies #[trigger] r[i].0 < self.next_node_id by {
                assert(r[i].0 < old(self).next_node_id());
            }
            assert(s[s.len() - 1].0 == node.id);
        }
        Send(Some(SendInner::Linked(SendInnerLinked { elem, node })))
    }

    /// Construct a recv future linked into the back of the recv queue with a fresh node.
    pub fn recv(&mut self) -> (r: Recv)
        requires
            old(self).wf(),
            old(self).recv_state() == RecvState::Normal,
            old(self).next_node_id() < u64::MAX,
        ensures
            final(self).wf(),
            r.linked_in(*final(self)),
            r.0 matches Some(RecvInner::Linked(l)) && l.node.id == old(self).next_node_id(),
            final(self).recv_nodes().nodes() == old(self).recv_nodes().nodes().push((old(self).next_node_id(), false)),
            !final(self).recv_nodes().purged(),
            final(self).next_node_id() == old(self).next_node_id() + 1,
            final(self).elems() == old(self).elems(),
            final(self).send_nodes() == old(self).send_nodes(),
            final(self).bound() == old(self).bound(),
            final(self).finished() == old(self).finished(),
            final(self).send_state() == old(self).send_state(),
            final(self).recv_state() == old(self).recv_state(),
            final(self).send_count() == old(self).send_count(),
            final(self).recv_count() == old(self).recv_count(),
    {
        let mut node = NodeHandle::new(self.next_node_id);
        proof {
            if has_id(self.recv_nodes.nodes(), node.id) {
                let k = choose|k: int| 0 <= k < self.recv_nodes.nodes().len() && #[trigger] self.recv_nodes.nodes()[k].0 == node.id;
            }
        }
        self.recv_nodes.push(&mut node);
        self.next_node_id = self.next_node_id + 1;
        proof {
            let s = self.recv_nodes.nodes();
            assert forall|i: int| 0 <= i < s.len() implies #[trigger] s[i].0 < self.next_node_id by {
                if i < s.len() - 1 {
                    assert(s[i] == old(self).recv_nodes().nodes()[i]);
                }
            }
            let r = self.send_nodes.nodes();
            assert forall|i: int| 0 <= i < r.len() implies #[trigger] r[i].0 < self.next_node_id by {
                assert(r[i].0 < old(self).next_node_id());
            }
            assert(s[s.len() - 1].0 == node.id);
        }
        Recv(Some(RecvInner::Linked(RecvInnerLinked { node })))
    }
}

impl<T> Channel<T> {
    /// Count one more sender handle.
    pub fn add_sender(&mut self)
        requires
            old(self).send_count() < u64::MAX,
        ensures
            final(self).send_count() == old(self).send_count() + 1,
            final(self).elems() == old(self).elems(),
            final(self).send_nodes() == old(self).send_nodes(),
            final(self).recv_nodes() == old(self).recv_nodes(),
            final(self).bound() == old(self).bound(),
            final(self).finished() == old(self).finished(),
            final(self).send_state() == old(self).send_state(),
            final(self).recv_state() == old(self).recv_state(),
            final(self).next_node_id() == old(self).next_node_id(),
            final(self).recv_count() == old(self).recv_count(),
    {
        self.send_count = self.send_count + 1;
    }

    /// Count one sender handle fewer, returning the previous count.
    pub fn remove_sender(&mut self) -> (prev: u64)
        requires
            old(self).send_count() > 0,
        ensures
            prev == old(self).send_count(),
            final(self).send_count() == old(self).send_count() - 1,
            final(self).elems() == old(self).elems(),
            final(self).send_nodes() == old(self).send_nodes(),
            final(self).recv_nodes() == old(self).recv_nodes(),
            final(self).bound() == old(self).bound(),
            final(self).finished() == old(self).finished(),
            final(self).send_state() == old(self).send_state(),
            final(self).recv_state() == old(self).recv_state(),
            final(self).next_node_id() == old(self).next_node_id(),
            final(self).recv_count() == old(self).recv_count(),
    {
        let prev = self.send_count;
        self.send_count = prev - 1;
        prev
    }

    /// Count one more receiver handle.
    pub fn add_receiver(&mut self)
        requires
            old(self).recv_count() < u64::MAX,
        ensures
            final(self).recv_count() == old(self).recv_count() + 1,
            final(self).elems() == old(self).elems(),
            final(self).send_nodes() == old(self).send_nodes(),
            final(self).recv_nodes() == old(self).recv_nodes(),
            final(self).bound() == old(self).bound(),
            final(self).finished() == old(self).finished(),
            final(self).send_state() == old(self).send_state(),
            final(self).recv_state() == old(self).recv_state(),
            final(self).next_node_id() == old(self).next_node_id(),
            final(self).send_count() == old(self).send_count(),
    {
        self.recv_count = self.recv_count + 1;
    }

    /// Count one receiver handle fewer, returning the previous count.
    pub fn remove_receiver(&mut self) -> (prev: u64)
        requires
            old(self).recv_count() > 0,
        ensures
            prev == old(self).recv_count(),
            final(self).recv_count() == old(self).recv_count() - 1,
            final(self).elems() == old(self).elems(),
            final(self).send_nodes() == old(self).send_nodes(),
            final(self).recv_nodes() == old(self).recv_nodes(),
            final(self).bound() == old(self).bound(),
            final(self).finished() == old(self).finished(),
            final(self).send_state() == old(self).send_state(),
            final(self).recv_state() == old(self).recv_state(),
            final(self).next_node_id() == old(self).next_node_id(),
            final(self).send_count() == old(self).send_count(),
    {
        let prev = self.recv_count;
        self.recv_count = prev - 1;
        prev
    }
}

/// Replacing a node by one with the same id keeps the ids.
proof fn lemma_update_keeps_ids(s: Seq<(u64, bool)>, i: int, e: (u64, bool), n: u64)
    requires
        0 <= i < s.len(),
        s[i].0 == e.0,
    ensures
        ids_below(s, n) ==> ids_below(s.update(i, e), n),
        forall|id: u64| has_id(s, id) <==> has_id(s.update(i, e), id),
{
    let o = s.update(i, e);
    assert forall|k: int| 0 <= k < s.len() implies #[trigger] o[k].0 == s[k].0 by {}
    assert forall|id: u64| has_id(s, id) implies has_id(o, id) by {
        let k = choose|k: int| 0 <= k < s.len() && #[trigger] s[k].0 == id;
        assert(o[k].0 == id);
    }
    assert forall|id: u64| has_id(o, id) implies has_id(s, id) by {
        let k = choose|k: int| 0 <= k < o.len() && #[trigger] o[k].0 == id;
        assert(s[k].0 == id);
    }
}

/// Removing a node keeps the other ids below the bound, and every other node.
proof fn lemma_remove_keeps_ids(s: Seq<(u64, bool)>, i: int, n: u64)
    requires
        0 <= i < s.len(),
    ensures
        ids_below(s, n) ==> ids_below(s.remove(i), n),
        forall|id: u64| has_id(s, id) && id != s[i].0 ==> has_id(s.remove(i), id),
{
    let o = s.remove(i);
    assert forall|k: int| 0 <= k < o.len() implies #[trigger] o[k] == (if k < i { s[k] } else { s[k + 1] }) by {}
    assert forall|id: u64| has_id(s, id) && id != s[i].0 implies has_id(o, id) by {
        let k = choose|k: int| 0 <= k < s.len() && #[trigger] s[k].0 == id;
        if k < i {
            assert(o[k].0 == id);
        } else {
            assert(o[k - 1].0 == id);
        }
    }
}

/// Taking the front waker keeps the node ids.
proof fn lemma_after_wake_ids(s: Seq<(u64, bool)>, purged: bool, n: u64)
    ensures
        ids_below(s, n) ==> ids_below(after_wake_front(s, purged), n),
        super::node_queue::distinct_ids(s) ==> super::node_queue::distinct_ids(after_wake_front(s, purged)),
        forall|id: u64| has_id(s, id) <==> has_id(after_wake_front(s, purged), id),
{
    let o = after_wake_front(s, purged);
    assert(o.len() == s.len());
    assert forall|i: int| 0 <= i < s.len() implies #[trigger] o[i].0 == s[i].0 by {}
    assert forall|id: u64| has_id(s, id) implies has_id(o, id) by {
        let i = choose|i: int| 0 <= i < s.len() && #[trigger] s[i].0 == id;
        assert(o[i].0 == id);
    }
    assert forall|id: u64| has_id(o, id) implies has_id(s, id) by {
        let i = choose|i: int| 0 <= i < o.len() && #[trigger] o[i].0 == id;
        assert(s[i].0 == id);
    }
}

} // verus!
