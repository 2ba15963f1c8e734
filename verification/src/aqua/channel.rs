//! Channel state: buffered elements, delivery semantics, sticky error, handle counts, and the
//! queues of waiting send and recv operations.
//!
//! Operations return the ids of the waiting operations whose wakers are to be woken; the caller
//! holds the wakers themselves.
use super::error::{RecvError, SendError, SendErrorReason};
use crate::channel::node_queue::{
    after_wake_front, front_woken, has_id, ids_below, opt_ids, NodeHandle, NodeQueue,
};
use crate::channel::seg_queue::SegQueue;
use vstd::prelude::*;

verus! {

/// Ordering, delivery and buffering semantics of a channel.
#[derive(Debug, Copy, Clone, PartialEq, Eq, Structural)]
pub enum Semantics {
    /// Reliable, possibly ordered, with an optional bound at which sending blocks.
    Reliable { ordered: bool, bound: Option<usize> },
    /// Unreliable, with an optional bound at which sending evicts the front element.
    Unreliable { bound: Option<usize> },
}

/// Information about a channel apart from its concurrency details.
#[derive(Debug, Copy, Clone, PartialEq, Eq, Structural)]
pub struct MetaInfo {
    /// The semantics, once chosen.
    pub semantics: Option<Semantics>,
    /// Whether the channel is networked.
    pub networked: bool,
    /// The sticky error that every send and recv operation returns.
    pub error: Option<SendErrorReason>,
}

/// Whether a send may push onto `len` elements under `sem`.
pub open spec fn has_capacity(sem: Semantics, len: int) -> bool {
    match sem {
        Semantics::Reliable { bound: Some(b), .. } => len < b,
        _ => true,
    }
}

/// The elements after a send under `sem` makes room: a full bounded unreliable channel evicts its
/// front element.
pub open spec fn after_evict<T>(sem: Semantics, elems: Seq<T>) -> Seq<T> {
    match sem {
        Semantics::Unreliable { bound: Some(b) } => if elems.len() >= b && elems.len() > 0 {
            elems.drop_first()
        } else {
            elems
        },
        _ => elems,
    }
}

/// Sending `e` onto the elements `old` of an unreliable channel bounded at `b` gave `new`: `e` is
/// at the back, behind the old elements less at most the front one, and the front one goes
/// exactly when the old length had reached `b`.
pub open spec fn unreliable_send_result<T>(old: Seq<T>, new: Seq<T>, e: T, b: int) -> bool {
    &&& new.len() == (if old.len() >= b { old.len() } else { old.len() + 1 })
    &&& new.len() > 0
    &&& new.last() == e
    &&& new.drop_last() == old.skip(old.len() - (new.len() - 1))
}

/// A send on an unreliable channel bounded at `b > 0` drops at most the front element: the
/// elements after it are `e` behind the old ones less the front one if the old length had reached
/// `b`, and behind all of them otherwise; from at most `b` elements, the length becomes the lesser
/// of one more and `b`.
pub proof fn lemma_unreliable_send_evicts_at_most_front<T>(b: usize, elems: Seq<T>, e: T)
    requires
        b > 0,
    ensures
        unreliable_send_result(elems, after_evict(Semantics::Unreliable { bound: Some(b) }, elems).push(e), e, b as int),
        elems.len() < b ==> after_evict(Semantics::Unreliable { bound: Some(b) }, elems).push(e) == elems.push(e),
        elems.len() <= b ==> after_evict(Semantics::Unreliable { bound: Some(b) }, elems).push(e).len() == (
            if elems.len() + 1 < b { elems.len() + 1 } else { b as nat }),
{
    let new = after_evict(Semantics::Unreliable { bound: Some(b) }, elems).push(e);
    if elems.len() >= b {
        assert(new.drop_last() =~= elems.skip(1));
    } else {
        assert(new.drop_last() =~= elems.skip(0));
    }
}

/// Whether taking one element from `len` relieves a full bounded reliable channel.
pub open spec fn was_at_capacity(sem: Option<Semantics>, len: int) -> bool {
    match sem {
        Some(Semantics::Reliable { bound: Some(b), .. }) => len == b,
        _ => false,
    }
}

/// The recv error for a sticky error other than no-receivers.
pub open spec fn recv_error_for(e: SendErrorReason) -> RecvError {
    match e {
        SendErrorReason::ConnectionLost => RecvError::ConnectionLost,
        _ => RecvError::Cancelled,
    }
}

/// A sticky error is reported to receivers under its own name: a lost connection as
/// `ConnectionLost`, a cancelled channel as `Cancelled`.
pub proof fn lemma_recv_error_keeps_name()
    ensures
        recv_error_for(SendErrorReason::ConnectionLost) == RecvError::ConnectionLost,
        recv_error_for(SendErrorReason::Cancelled) == RecvError::Cancelled,
{
}

/// What removing node `id` from `nodes` leaves, and which node is then woken: if it was at the
/// front, the node behind it, if that has a waker.
pub open spec fn removed_nodes(nodes: Seq<(u64, bool)>, i: int, id: u64) -> Seq<(u64, bool)> {
    if nodes[0].0 == id {
        after_wake_front(nodes.remove(i), false)
    } else {
        nodes.remove(i)
    }
}

/// The ids woken by removing node `id` at position `i`.
pub open spec fn removed_woken(nodes: Seq<(u64, bool)>, i: int, id: u64) -> Seq<u64> {
    if nodes[0].0 == id {
        opt_ids(front_woken(nodes.remove(i), false))
    } else {
        Seq::empty()
    }
}

/// Channel state.
pub struct Channel<T> {
    elems: SegQueue<T>,
    meta: MetaInfo,
    sender_count: u64,
    receiver_count: u64,
    send_waiting: NodeQueue,
    recv_waiting: NodeQueue,
    next_node_id: u64,
}

/// Handle to a waiting operation's node, and whether it was removed.
pub struct WaiterHandle {
    pub node: NodeHandle,
    pub removed: bool,
}

/// A waiting send operation.
pub struct SendWaiter(pub WaiterHandle);

/// A waiting recv operation.
pub struct RecvWaiter(pub WaiterHandle);

impl<T> Channel<T> {
    /// The buffered elements, front first.
    pub closed spec fn elems(&self) -> Seq<T> {
        self.elems@
    }

    /// The meta information.
    pub closed spec fn meta(&self) -> MetaInfo {
        self.meta
    }

    /// The number of sender handles.
    pub closed spec fn sender_count(&self) -> u64 {
        self.sender_count
    }

    /// The number of receiver handles.
    pub closed spec fn receiver_count(&self) -> u64 {
        self.receiver_count
    }

    /// The waiting send operations.
    pub closed spec fn send_waiting(&self) -> Seq<(u64, bool)> {
        self.send_waiting.nodes()
    }

    /// The waiting recv operations.
    pub closed spec fn recv_waiting(&self) -> Seq<(u64, bool)> {
        self.recv_waiting.nodes()
    }

    /// The id the next node will get.
    pub closed spec fn next_node_id(&self) -> u64 {
        self.next_node_id
    }

    /// The position of node `id` in the send waiter queue.
    pub closed spec fn send_index(&self, id: u64) -> int {
        self.send_waiting.index_of(id)
    }

    /// The position of node `id` in the recv waiter queue.
    pub closed spec fn recv_index(&self, id: u64) -> int {
        self.recv_waiting.index_of(id)
    }

    /// The invariant: the waiter queues are well-formed, never purged, and hold only minted ids.
    pub closed spec fn wf(&self) -> bool {
        &&& self.send_waiting.wf()
        &&& self.recv_waiting.wf()
        &&& !self.send_waiting.purged()
        &&& !self.recv_waiting.purged()
        &&& ids_below(self.send_waiting.nodes(), self.next_node_id)
        &&& ids_below(self.recv_waiting.nodes(), self.next_node_id)
    }

    /// Construct an empty channel with the given meta information and handle counts.
    pub fn new(meta: MetaInfo, sender_count: u64, receiver_count: u64) -> (r: Self)
        ensures
            r.wf(),
            r.elems() == Seq::<T>::empty(),
            r.meta() == meta,
            r.sender_count() == sender_count,
            r.receiver_count() == receiver_count,
            r.send_waiting() == Seq::<(u64, bool)>::empty(),
            r.recv_waiting() == Seq::<(u64, bool)>::empty(),
            r.next_node_id() == 0,
    {
        Channel {
            elems: SegQueue::new(),
            meta,
            sender_count,
            receiver_count,
            send_waiting: NodeQueue::new(),
            recv_waiting: NodeQueue::new(),
            next_node_id: 0,
        }
    }

    /// Push a new node to the back of the send waiter queue.
    pub fn push_send_node(&mut self) -> (r: SendWaiter)
        requires
            old(self).wf(),
            old(self).next_node_id() < u64::MAX,
        ensures
            final(self).wf(),
            r.0.node.id == old(self).next_node_id() && r.0.node.linked && !r.0.removed,
            final(self).send_waiting() == old(self).send_waiting().push((old(self).next_node_id(), false)),
            final(self).recv_waiting() == old(self).recv_waiting(),
            final(self).next_node_id() == old(self).next_node_id() + 1,
            final(self).elems() == old(self).elems(),
            final(self).meta() == old(self).meta(),
            final(self).sender_count() == old(self).sender_count(),
            final(self).receiver_count() == old(self).receiver_count(),
    {
        let mut node = NodeHandle::new(self.next_node_id);
        proof {
            lemma_fresh_id(self.send_waiting.nodes(), self.next_node_id);
        }
        self.send_waiting.push(&mut node);
        self.next_node_id = self.next_node_id + 1;
        proof {
            lemma_push_ids_below(old(self).send_waiting.nodes(), node.id, self.next_node_id);
            lemma_ids_below_mono(self.recv_waiting.nodes(), old(self).next_node_id, self.next_node_id);
        }
        SendWaiter(WaiterHandle { node, removed: false })
    }

    /// Push a new node to the back of the recv waiter queue.
    pub fn push_recv_node(&mut self) -> (r: RecvWaiter)
        requires
            old(self).wf(),
            old(self).next_node_id() < u64::MAX,
        ensures
            final(self).wf(),
            r.0.node.id == old(self).next_node_id() && r.0.node.linked && !r.0.removed,
            final(self).recv_waiting() == old(self).recv_waiting().push((old(self).next_node_id(), false)),
            final(self).send_waiting() == old(self).send_waiting(),
            final(self).next_node_id() == old(self).next_node_id() + 1,
            final(self).elems() == old(self).elems(),
            final(self).meta() == old(self).meta(),
            final(self).sender_count() == old(self).sender_count(),
            final(self).receiver_count() == old(self).receiver_count(),
    {
        let mut node = NodeHandle::new(self.next_node_id);
        proof {
            lemma_fresh_id(self.recv_waiting.nodes(), self.next_node_id);
        }
        self.recv_waiting.push(&mut node);
        self.next_node_id = self.next_node_id + 1;
        proof {
            lemma_push_ids_below(old(self).recv_waiting.nodes(), node.id, self.next_node_id);
            lemma_ids_below_mono(self.send_waiting.nodes(), old(self).next_node_id, self.next_node_id);
        }
        RecvWaiter(WaiterHandle { node, removed: false })
    }

    /// Choose the semantics and count the new sender handle.
    pub fn init(&mut self, semantics: Semantics)
        requires
            old(self).sender_count() < u64::MAX,
            old(self).wf(),
        ensures
            final(self).wf(),
            final(self).meta() == (MetaInfo { semantics: Some(semantics), ..old(self).meta() }),
            final(self).sender_count() == old(self).sender_count() + 1,
            final(self).elems() == old(self).elems(),
            final(self).send_waiting() == old(self).send_waiting(),
            final(self).recv_waiting() == old(self).recv_waiting(),
            final(self).receiver_count() == old(self).receiver_count(),
            final(self).next_node_id() == old(self).next_node_id(),
    {
        self.sender_count = self.sender_count + 1;
        self.meta.semantics = Some(semantics);
    }

    /// Enter the given sticky error unless some error is already set: the elements are dropped
    /// and the front send and recv operations are woken.
    pub fn enter_errored_state(&mut self, error: SendErrorReason) -> (woken: Vec<u64>)
        requires
            old(self).wf(),
        ensures
            final(self).wf(),
            old(self).meta().error is Some ==> *final(self) == *old(self) && woken@ == Seq::<u64>::empty(),
            old(self).meta().error is None ==> {
                &&& final(self).meta() == (MetaInfo { error: Some(error), ..old(self).meta() })
                &&& final(self).elems() == Seq::<T>::empty()
                &&& final(self).send_waiting() == after_wake_front(old(self).send_waiting(), false)
                &&& final(self).recv_waiting() == after_wake_front(old(self).recv_waiting(), false)
                &&& woken@ == opt_ids(front_woken(old(self).send_waiting(), false)) + opt_ids(
                    front_woken(old(self).recv_waiting(), false),
                )
                &&& final(self).sender_count() == old(self).sender_count()
                &&& final(self).receiver_count() == old(self).receiver_count()
                &&& final(self).next_node_id() == old(self).next_node_id()
            },
    {
        if self.meta.error.is_some() {
            return Vec::new();
        }
        self.elems = SegQueue::new();
        self.meta.error = Some(error);
        let mut woken: Vec<u64> = Vec::new();
        if let Some(id) = self.send_waiting.wake_front() {
            woken.push(id);
        }
        let ghost w = woken@;
        if let Some(id) = self.recv_waiting.wake_front() {
            woken.push(id);
        }
        proof {
            lemma_wake_keeps(old(self).send_waiting.nodes(), self.next_node_id);
            lemma_wake_keeps(old(self).recv_waiting.nodes(), self.next_node_id);
            assert(woken@ =~= w + opt_ids(front_woken(old(self).recv_waiting(), false)));
        }
        woken
    }

    /// Count one sender handle fewer; when the last is dropped and no error is set, the front
    /// recv operation is woken, to see the channel finished.
    pub fn decrement_sender_count(&mut self) -> (woken: Vec<u64>)
        requires
            old(self).wf(),
            old(self).sender_count() > 0,
        ensures
            final(self).wf(),
            final(self).sender_count() == old(self).sender_count() - 1,
            final(self).elems() == old(self).elems(),
            final(self).meta() == old(self).meta(),
            final(self).send_waiting() == old(self).send_waiting(),
            final(self).receiver_count() == old(self).receiver_count(),
            final(self).next_node_id() == old(self).next_node_id(),
            (old(self).sender_count() == 1 && old(self).meta().error is None) ==> final(self).recv_waiting()
                == after_wake_front(old(self).recv_waiting(), false) && woken@ == opt_ids(
                front_woken(old(self).recv_waiting(), false),
            ),
            !(old(self).sender_count() == 1 && old(self).meta().error is None) ==> final(self).recv_waiting()
                == old(self).recv_waiting() && woken@ == Seq::<u64>::empty(),
    {
        let prev = self.sender_count;
        self.sender_count = prev - 1;
        let mut woken: Vec<u64> = Vec::new();
        if prev == 1 && self.meta.error.is_none() {
            if let Some(id) = self.recv_waiting.wake_front() {
                woken.push(id);
            }
            proof {
                lemma_wake_keeps(old(self).recv_waiting.nodes(), self.next_node_id);
            }
        }
        woken
    }

    /// Count one receiver handle fewer; when the last is dropped and no error is set, the
    /// elements are dropped, the error becomes no-receivers, and the front send operation is
    /// woken.
    pub fn decrement_receiver_count(&mut self) -> (woken: Vec<u64>)
        requires
            old(self).wf(),
            old(self).receiver_count() > 0,
        ensures
            final(self).wf(),
            final(self).receiver_count() == old(self).receiver_count() - 1,
            final(self).sender_count() == old(self).sender_count(),
            final(self).recv_waiting() == old(self).recv_waiting(),
            final(self).next_node_id() == old(self).next_node_id(),
            (old(self).receiver_count() == 1 && old(self).meta().error is None) ==> {
                &&& final(self).meta() == (MetaInfo {
                    error: Some(SendErrorReason::NoReceivers),
                    ..old(self).meta()
                })
                &&& final(self).elems() == Seq::<T>::empty()
                &&& final(self).send_waiting() == after_wake_front(old(self).send_waiting(), false)
                &&& woken@ == opt_ids(front_woken(old(self).send_waiting(), false))
            },
            !(old(self).receiver_count() == 1 && old(self).meta().error is None) ==> final(self).meta()
                == old(self).meta() && final(self).elems() == old(self).elems()
                && final(self).send_waiting() == old(self).send_waiting() && woken@ == Seq::<u64>::empty(),
    {
        let prev = self.receiver_count;
        self.receiver_count = prev - 1;
        let mut woken: Vec<u64> = Vec::new();
        if prev == 1 && self.meta.error.is_none() {
            self.elems = SegQueue::new();
            self.meta.error = Some(SendErrorReason::NoReceivers);
            if let Some(id) = self.send_waiting.wake_front() {
                woken.push(id);
            }
            proof {
                lemma_wake_keeps(old(self).send_waiting.nodes(), self.next_node_id);
            }
        }
        woken
    }

    /// Count one more sender handle.
    pub fn increment_sender_count(&mut self)
        requires
            old(self).sender_count() < u64::MAX,
        ensures
            final(self).sender_count() == old(self).sender_count() + 1,
            final(self).wf() == old(self).wf(),
            final(self).elems() == old(self).elems(),
            final(self).meta() == old(self).meta(),
            final(self).send_waiting() == old(self).send_waiting(),
            final(self).recv_waiting() == old(self).recv_waiting(),
            final(self).receiver_count() == old(self).receiver_count(),
            final(self).next_node_id() == old(self).next_node_id(),
    {
        self.sender_count = self.sender_count + 1;
    }

    /// Count one more receiver handle.
    pub fn increment_receiver_count(&mut self)
        requires
            old(self).receiver_count() < u64::MAX,
        ensures
            final(self).receiver_count() == old(self).receiver_count() + 1,
            final(self).wf() == old(self).wf(),
            final(self).elems() == old(self).elems(),
            final(self).meta() == old(self).meta(),
            final(self).send_waiting() == old(self).send_waiting(),
            final(self).recv_waiting() == old(self).recv_waiting(),
            final(self).sender_count() == old(self).sender_count(),
            final(self).next_node_id() == old(self).next_node_id(),
    {
        self.receiver_count = self.receiver_count + 1;
    }
}

impl SendWaiter {
    /// Poll a send of `elem`. Only the front send operation acts: on a sticky error it resolves
    /// to that error with the element; if the channel has capacity (a full bounded unreliable
    /// channel evicting its front element first) it pushes the element and resolves to `Ok`,
    /// waking the front recv operation if the channel was empty; else it waits. A resolved
    /// operation is removed, waking the send operation behind it; a waiting one gets a waker.
    pub fn poll<T>(&mut self, ch: &mut Channel<T>, elem: &mut Option<T>) -> (r: (Option<Result<(), SendError<T>>>, Vec<u64>))
        requires
            old(ch).wf(),
            !old(self).0.removed,
            has_id(old(ch).send_waiting(), old(self).0.node.id),
            old(elem).is_some(),
            old(ch).meta().semantics is Some,
            old(ch).meta().semantics matches Some(Semantics::Unreliable { bound: Some(b) }) ==> b > 0,
        ensures
            final(ch).wf(),
            final(self).0.node.id == old(self).0.node.id,
            final(ch).meta() == old(ch).meta(),
            final(ch).sender_count() == old(ch).sender_count(),
            final(ch).receiver_count() == old(ch).receiver_count(),
            final(ch).next_node_id() == old(ch).next_node_id(),
            ({
                let id = old(self).0.node.id;
                let nodes = old(ch).send_waiting();
                let i = old(ch).send_index(id);
                let e = old(elem).unwrap();
                let sem = old(ch).meta().semantics.unwrap();
                if nodes[0].0 != id || (old(ch).meta().error is None && !has_capacity(sem, old(ch).elems().len() as int)) {
                    &&& r.0 is None
                    &&& r.1@ == Seq::<u64>::empty()
                    &&& *final(elem) == *old(elem)
                    &&& !final(self).0.removed
                    &&& final(ch).elems() == old(ch).elems()
                    &&& final(ch).recv_waiting() == old(ch).recv_waiting()
                    &&& final(ch).send_waiting() == nodes.update(i, (id, true))
                } else if old(ch).meta().error is Some {
                    &&& r.0 == Some(Err::<(), SendError<T>>(SendError { message: e, reason: old(ch).meta().error.unwrap() }))
                    &&& final(elem).is_none()
                    &&& final(self).0.removed
                    &&& final(ch).elems() == old(ch).elems()
                    &&& final(ch).recv_waiting() == old(ch).recv_waiting()
                    &&& final(ch).send_waiting() == removed_nodes(nodes, i, id)
                    &&& r.1@ == removed_woken(nodes, i, id)
                } else {
                    let pushed = after_evict(sem, old(ch).elems()).push(e);
                    let wake_recv = pushed.len() == 1;
                    &&& r.0 == Some(Ok::<(), SendError<T>>(()))
                    &&& final(elem).is_none()
                    &&& final(self).0.removed
                    &&& final(ch).elems() == pushed
                    &&& (sem matches Semantics::Unreliable { bound: Some(b) } ==> unreliable_send_result(
                        old(ch).elems(),
                        final(ch).elems(),
                        e,
                        b as int,
                    ))
                    &&& final(ch).recv_waiting() == (if wake_recv {
                        after_wake_front(old(ch).recv_waiting(), false)
                    } else {
                        old(ch).recv_waiting()
                    })
                    &&& final(ch).send_waiting() == removed_nodes(nodes, i, id)
                    &&& r.1@ == (if wake_recv {
                        opt_ids(front_woken(old(ch).recv_waiting(), false))
                    } else {
                        Seq::empty()
                    }) + removed_woken(nodes, i, id)
                }
            }),
    {
        proof {
            match old(ch).meta().semantics {
                Some(Semantics::Unreliable { bound: Some(b) }) => {
                    lemma_unreliable_send_evicts_at_most_front(b, old(ch).elems(), old(elem).unwrap());
                },
                _ => {},
            }
        }
        let id = self.0.node.id;
        let ghost i = ch.send_waiting.index_of(id);
        if !ch.send_waiting.is_front(&self.0.node) {
            ch.send_waiting.set_waker(&self.0.node, true);
            proof { lemma_update_keeps(old(ch).send_waiting.nodes(), i, (id, true), ch.next_node_id); }
            return (None, Vec::new());
        }
        let mut woken: Vec<u64> = Vec::new();
        let result: Option<Result<(), SendError<T>>>;
        let mut wake_other = false;
        if let Some(reason) = ch.meta.error {
            let message = match elem.take() {
                Some(m) => m,
                None => { return (None, Vec::new()); },
            };
            result = Some(Err(SendError { message, reason }));
        } else {
            let capacity = match ch.meta.semantics {
                Some(Semantics::Reliable { bound: Some(b), .. }) => ch.elems.len() < b,
                Some(Semantics::Unreliable { bound: Some(b) }) => {
                    if ch.elems.len() >= b {
                        let _evicted = ch.elems.pop();
                    }
                    true
                },
                _ => true,
            };
            if capacity {
                let message = match elem.take() {
                    Some(m) => m,
                    None => { return (None, Vec::new()); },
                };
                ch.elems.push(message);
                wake_other = ch.elems.len() == 1;
                result = Some(Ok(()));
            } else {
                result = None;
            }
        }
        if wake_other {
            if let Some(wid) = ch.recv_waiting.wake_front() {
                woken.push(wid);
            }
            proof { lemma_wake_keeps(old(ch).recv_waiting.nodes(), ch.next_node_id); }
        }
        if result.is_some() {
            let ghost w = woken@;
            let mut more = remove_node(&mut ch.send_waiting, &mut self.0.node, ch.next_node_id);
            woken.append(&mut more);
            self.0.removed = true;
        } else {
            ch.send_waiting.set_waker(&self.0.node, true);
            proof { lemma_update_keeps(old(ch).send_waiting.nodes(), i, (id, true), ch.next_node_id); }
        }
        (result, woken)
    }

    /// Remove this operation's node if not yet removed, waking the one behind it if it was at the
    /// front; returns whether it was removed now.
    pub fn remove<T>(&mut self, ch: &mut Channel<T>) -> (r: (bool, Vec<u64>))
        requires
            old(ch).wf(),
            !old(self).0.removed ==> has_id(old(ch).send_waiting(), old(self).0.node.id),
        ensures
            final(ch).wf(),
            final(self).0.removed,
            final(self).0.node.id == old(self).0.node.id,
            r.0 == !old(self).0.removed,
            final(ch).elems() == old(ch).elems(),
            final(ch).meta() == old(ch).meta(),
            final(ch).recv_waiting() == old(ch).recv_waiting(),
            final(ch).sender_count() == old(ch).sender_count(),
            final(ch).receiver_count() == old(ch).receiver_count(),
            final(ch).next_node_id() == old(ch).next_node_id(),
            old(self).0.removed ==> final(ch).send_waiting() == old(ch).send_waiting() && r.1@ == Seq::<u64>::empty(),
            !old(self).0.removed ==> final(ch).send_waiting() == removed_nodes(
                old(ch).send_waiting(),
                old(ch).send_index(old(self).0.node.id),
                old(self).0.node.id,
            ) && r.1@ == removed_woken(
                old(ch).send_waiting(),
                old(ch).send_index(old(self).0.node.id),
                old(self).0.node.id,
            ),
    {
        if self.0.removed {
            return (false, Vec::new());
        }
        let woken = remove_node(&mut ch.send_waiting, &mut self.0.node, ch.next_node_id);
        self.0.removed = true;
        (true, woken)
    }
}

impl RecvWaiter {
    /// Poll a recv. Only the front recv operation acts: on a sticky error it resolves to the
    /// matching recv error; if an element is buffered it takes the front one, waking the front
    /// send operation if that relieved a full bounded reliable channel; if there are no senders
    /// left it resolves to `Ok(None)`; else it waits. A resolved operation is removed, waking the
    /// recv operation behind it; a waiting one gets a waker.
    pub fn poll<T>(&mut self, ch: &mut Channel<T>) -> (r: (Option<Result<Option<T>, RecvError>>, Vec<u64>))
        requires
            old(ch).wf(),
            !old(self).0.removed,
            has_id(old(ch).recv_waiting(), old(self).0.node.id),
            old(ch).meta().error != Some(SendErrorReason::NoReceivers),
        ensures
            final(ch).wf(),
            final(self).0.node.id == old(self).0.node.id,
            final(ch).meta() == old(ch).meta(),
            final(ch).sender_count() == old(ch).sender_count(),
            final(ch).receiver_count() == old(ch).receiver_count(),
            final(ch).next_node_id() == old(ch).next_node_id(),
            ({
                let id = old(self).0.node.id;
                let nodes = old(ch).recv_waiting();
                let i = old(ch).recv_index(id);
                let len = old(ch).elems().len();
                if nodes[0].0 != id || (old(ch).meta().error is None && len == 0 && old(ch).sender_count() != 0) {
                    &&& r.0 is None
                    &&& r.1@ == Seq::<u64>::empty()
                    &&& !final(self).0.removed
                    &&& final(ch).elems() == old(ch).elems()
                    &&& final(ch).send_waiting() == old(ch).send_waiting()
                    &&& final(ch).recv_waiting() == nodes.update(i, (id, true))
                } else {
                    let wake_send = old(ch).meta().error is None && len > 0 && was_at_capacity(old(ch).meta().semantics, len as int);
                    &&& final(self).0.removed
                    &&& r.0 == (if old(ch).meta().error is Some {
                        Some(Err::<Option<T>, RecvError>(recv_error_for(old(ch).meta().error.unwrap())))
                    } else if len > 0 {
                        Some(Ok::<Option<T>, RecvError>(Some(old(ch).elems()[0])))
                    } else {
                        Some(Ok::<Option<T>, RecvError>(None))
                    })
                    &&& final(ch).elems() == (if old(ch).meta().error is None && len > 0 {
                        old(ch).elems().drop_first()
                    } else {
                        old(ch).elems()
                    })
                    &&& final(ch).send_waiting() == (if wake_send {
                        after_wake_front(old(ch).send_waiting(), false)
                    } else {
                        old(ch).send_waiting()
                    })
                    &&& final(ch).recv_waiting() == removed_nodes(nodes, i, id)
                    &&& r.1@ == (if wake_send {
                        opt_ids(front_woken(old(ch).send_waiting(), false))
                    } else {
                        Seq::empty()
                    }) + removed_woken(nodes, i, id)
                }
            }),
    {
        let id = self.0.node.id;
        let ghost i = ch.recv_waiting.index_of(id);
        if !ch.recv_waiting.is_front(&self.0.node) {
            ch.recv_waiting.set_waker(&self.0.node, true);
            proof { lemma_update_keeps(old(ch).recv_waiting.nodes(), i, (id, true), ch.next_node_id); }
            return (None, Vec::new());
        }
        let mut woken: Vec<u64> = Vec::new();
        let result: Option<Result<Option<T>, RecvError>>;
        let mut wake_other = false;
        if let Some(reason) = ch.meta.error {
            let error = match reason {
                SendErrorReason::ConnectionLost => RecvError::ConnectionLost,
                _ => RecvError::Cancelled,
            };
            result = Some(Err(error));
        } else if let Some(e) = ch.elems.pop() {
            wake_other = match ch.meta.semantics {
                Some(Semantics::Reliable { bound: Some(b), .. }) => ch.elems.len() < b && ch.elems.len() + 1 == b,
                _ => false,
            };
            result = Some(Ok(Some(e)));
        } else if ch.sender_count == 0 {
            result = Some(Ok(None));
        } else {
            result = None;
        }
        if wake_other {
            if let Some(wid) = ch.send_waiting.wake_front() {
                woken.push(wid);
            }
            proof { lemma_wake_keeps(old(ch).send_waiting.nodes(), ch.next_node_id); }
        }
        if result.is_some() {
            let mut more = remove_node(&mut ch.recv_waiting, &mut self.0.node, ch.next_node_id);
            woken.append(&mut more);
            self.0.removed = true;
        } else {
            ch.recv_waiting.set_waker(&self.0.node, true);
            proof { lemma_update_keeps(old(ch).recv_waiting.nodes(), i, (id, true), ch.next_node_id); }
        }
        (result, woken)
    }

    /// Remove this operation's node if not yet removed, waking the one behind it if it was at the
    /// front; returns whether it was removed now.
    pub fn remove<T>(&mut self, ch: &mut Channel<T>) -> (r: (bool, Vec<u64>))
        requires
            old(ch).wf(),
            !old(self).0.removed ==> has_id(old(ch).recv_waiting(), old(self).0.node.id),
        ensures
            final(ch).wf(),
            final(self).0.removed,
            final(self).0.node.id == old(self).0.node.id,
            r.0 == !old(self).0.removed,
            final(ch).elems() == old(ch).elems(),
            final(ch).meta() == old(ch).meta(),
            final(ch).send_waiting() == old(ch).send_waiting(),
            final(ch).sender_count() == old(ch).sender_count(),
            final(ch).receiver_count() == old(ch).receiver_count(),
            final(ch).next_node_id() == old(ch).next_node_id(),
            old(self).0.removed ==> final(ch).recv_waiting() == old(ch).recv_waiting() && r.1@ == Seq::<u64>::empty(),
            !old(self).0.removed ==> final(ch).recv_waiting() == removed_nodes(
                old(ch).recv_waiting(),
                old(ch).recv_index(old(self).0.node.id),
                old(self).0.node.id,
            ) && r.1@ == removed_woken(
                old(ch).recv_waiting(),
                old(ch).recv_index(old(self).0.node.id),
                old(self).0.node.id,
            ),
    {
        if self.0.removed {
            return (false, Vec::new());
        }
        let woken = remove_node(&mut ch.recv_waiting, &mut self.0.node, ch.next_node_id);
        self.0.removed = true;
        (true, woken)
    }
}

/// Remove `node` from `q`; if it was at the front, take the waker of the node behind it.
fn remove_node(q: &mut NodeQueue, node: &mut NodeHandle, n: u64) -> (woken: Vec<u64>)
    requires
        old(q).wf(),
        !old(q).purged(),
        has_id(old(q).nodes(), old(node).id),
        ids_below(old(q).nodes(), n),
    ensures
        final(q).wf(),
        !final(q).purged(),
        ids_below(final(q).nodes(), n),
        final(node).id == old(node).id,
        final(q).nodes() == removed_nodes(old(q).nodes(), old(q).index_of(old(node).id), old(node).id),
        woken@ == removed_woken(old(q).nodes(), old(q).index_of(old(node).id), old(node).id),
{
    node.linked = true;
    let was_front = q.is_front(node);
    q.remove(node);
    proof {
        lemma_remove_below(old(q).nodes(), old(q).index_of(old(node).id), n);
    }
    let mut woken: Vec<u64> = Vec::new();
    if was_front {
        let ghost before = q.nodes();
        if let Some(id) = q.wake_front() {
            woken.push(id);
        }
        proof {
            lemma_wake_keeps(before, n);
            assert(woken@ =~= opt_ids(front_woken(before, false)));
        }
    }
    woken
}

/// A fresh id is not in a queue of smaller ids.
proof fn lemma_fresh_id(s: Seq<(u64, bool)>, n: u64)
    requires
        ids_below(s, n),
    ensures
        !has_id(s, n),
{
    if has_id(s, n) {
        let k = choose|k: int| 0 <= k < s.len() && #[trigger] s[k].0 == n;
    }
}

/// Pushing an id below the bound keeps all ids below it.
proof fn lemma_push_ids_below(s: Seq<(u64, bool)>, id: u64, n: u64)
    requires
        ids_below(s, id),
        id < n,
    ensures
        ids_below(s.push((id, false)), n),
{
    let o = s.push((id, false));
    assert forall|i: int| 0 <= i < o.len() implies #[trigger] o[i].0 < n by {
        if i < s.len() {
            assert(o[i] == s[i]);
        }
    }
}

/// Ids below a bound are below a larger one.
proof fn lemma_ids_below_mono(s: Seq<(u64, bool)>, a: u64, b: u64)
    requires
        ids_below(s, a),
        a <= b,
    ensures
        ids_below(s, b),
{
    assert forall|i: int| 0 <= i < s.len() implies #[trigger] s[i].0 < b by {
        assert(s[i].0 < a);
    }
}

/// Taking the front waker keeps ids below the bound.
proof fn lemma_wake_keeps(s: Seq<(u64, bool)>, n: u64)
    ensures
        ids_below(s, n) ==> ids_below(after_wake_front(s, false), n),
{
    let o = after_wake_front(s, false);
    assert forall|i: int| 0 <= i < o.len() && ids_below(s, n) implies #[trigger] o[i].0 < n by {
        assert(o[i].0 == s[i].0);
    }
}

/// Replacing a node by one with the same id keeps ids below the bound.
proof fn lemma_update_keeps(s: Seq<(u64, bool)>, i: int, e: (u64, bool), n: u64)
    requires
        0 <= i < s.len(),
        s[i].0 == e.0,
    ensures
        ids_below(s, n) ==> ids_below(s.update(i, e), n),
{
    let o = s.update(i, e);
    assert forall|k: int| 0 <= k < o.len() && ids_below(s, n) implies #[trigger] o[k].0 < n by {
        assert(o[k].0 == s[k].0);
    }
}

/// Removing a node keeps ids below the bound.
proof fn lemma_remove_below(s: Seq<(u64, bool)>, i: int, n: u64)
    requires
        0 <= i < s.len(),
    ensures
        ids_below(s, n) ==> ids_below(s.remove(i), n),
{
    let o = s.remove(i);
    assert forall|k: int| 0 <= k < o.len() && ids_below(s, n) implies #[trigger] o[k].0 < n by {
        if k < i {
            assert(o[k] == s[k]);
        } else {
            assert(o[k] == s[k + 1]);
        }
    }
}

} // verus!
