//! Queues of the waiting operations of a channel, each a node with an optional waker.
use vstd::prelude::*;

verus! {

/// Whether no node occurs twice.
pub open spec fn distinct_ids(s: Seq<(u64, bool)>) -> bool {
    forall|i: int, j: int| 0 <= i < j < s.len() ==> #[trigger] s[i].0 != #[trigger] s[j].0
}

/// Whether node `id` is in the queue.
pub open spec fn has_id(s: Seq<(u64, bool)>, id: u64) -> bool {
    exists|i: int| 0 <= i < s.len() && #[trigger] s[i].0 == id
}

/// The ids of the nodes that have a waker, front first.
pub open spec fn woken_ids(s: Seq<(u64, bool)>) -> Seq<u64>
    decreases s.len(),
{
    if s.len() == 0 {
        Seq::empty()
    } else {
        let rest = woken_ids(s.drop_first());
        if s[0].1 {
            seq![s[0].0] + rest
        } else {
            rest
        }
    }
}

/// The node whose waker taking the front's waker wakes, if any.
pub open spec fn front_woken(nodes: Seq<(u64, bool)>, purged: bool) -> Option<u64> {
    if !purged && nodes.len() > 0 && nodes[0].1 {
        Some(nodes[0].0)
    } else {
        None
    }
}

/// The nodes after taking the front's waker.
pub open spec fn after_wake_front(nodes: Seq<(u64, bool)>, purged: bool) -> Seq<(u64, bool)> {
    if !purged && nodes.len() > 0 && nodes[0].1 {
        nodes.update(0, (nodes[0].0, false))
    } else {
        nodes
    }
}

/// The ids in an optional id.
pub open spec fn opt_ids(o: Option<u64>) -> Seq<u64> {
    match o {
        Some(id) => seq![id],
        None => Seq::empty(),
    }
}

/// Whether every node id is below `n`.
pub open spec fn ids_below(s: Seq<(u64, bool)>, n: u64) -> bool {
    forall|i: int| 0 <= i < s.len() ==> #[trigger] s[i].0 < n
}

/// Queue of nodes, each a waiting operation, identified by an id and noting whether it has a
/// waker. Purging is irreversible: it empties the queue and wakes every waker.
pub struct NodeQueue {
    nodes: Vec<(u64, bool)>,
    purged: bool,
}

/// Handle to a node: its id and whether it is linked into a queue.
pub struct NodeHandle {
    pub id: u64,
    pub linked: bool,
}

impl NodeHandle {
    /// Construct an unlinked node handle.
    pub fn new(id: u64) -> (r: Self)
        ensures
            r.id == id,
            !r.linked,
    {
        NodeHandle { id, linked: false }
    }

    /// Whether this node is linked.
    pub fn is_linked(&self) -> (r: bool)
        ensures
            r == self.linked,
    {
        self.linked
    }
}

impl NodeQueue {
    /// The nodes, front first: each node's id and whether it has a waker.
    pub closed spec fn nodes(&self) -> Seq<(u64, bool)> {
        self.nodes@
    }

    /// Whether the queue is purged.
    pub closed spec fn purged(&self) -> bool {
        self.purged
    }

    /// Well-formedness: ids are distinct, and a purged queue is empty.
    pub open spec fn wf(&self) -> bool {
        &&& distinct_ids(self.nodes())
        &&& self.purged() ==> self.nodes().len() == 0
    }

    /// The position of node `id`.
    pub open spec fn index_of(&self, id: u64) -> int {
        choose|i: int| 0 <= i < self.nodes().len() && #[trigger] self.nodes()[i].0 == id
    }

    /// Construct empty.
    pub fn new() -> (r: Self)
        ensures
            r.wf(),
            r.nodes() == Seq::<(u64, bool)>::empty(),
            !r.purged(),
    {
        NodeQueue { nodes: Vec::new(), purged: false }
    }

    /// Whether this queue is purged.
    pub fn is_purged(&self) -> (r: bool)
        ensures
            r == self.purged(),
    {
        self.purged
    }

    /// Link the node to the back of this queue, without a waker.
    pub fn push(&mut self, node: &mut NodeHandle)
        requires
            old(self).wf(),
            !old(self).purged(),
            !old(node).linked,
            !has_id(old(self).nodes(), old(node).id),
        ensures
            final(self).wf(),
            !final(self).purged(),
            final(self).nodes() == old(self).nodes().push((old(node).id, false)),
            final(node).linked,
            final(node).id == old(node).id,
    {
        node.linked = true;
        self.nodes.push((node.id, false));
        proof {
            let s = self.nodes@;
            assert forall|i: int, j: int| 0 <= i < j < s.len() implies #[trigger] s[i].0
                != #[trigger] s[j].0 by {
                if j == s.len() - 1 {
                    if s[i].0 == node.id {
                        assert(old(self).nodes()[i].0 == old(node).id);
                    }
                }
            }
        }
    }

    /// Find the position of node `id`.
    fn find(&self, id: u64) -> (r: usize)
        requires
            has_id(self.nodes(), id),
            distinct_ids(self.nodes()),
        ensures
            r < self.nodes().len(),
            self.nodes()[r as int].0 == id,
            r == self.index_of(id),
    {
        let mut i: usize = 0;
        while i < self.nodes.len()
            invariant
                i <= self.nodes@.len(),
                has_id(self.nodes@, id),
                distinct_ids(self.nodes@),
                forall|k: int| 0 <= k < i ==> #[trigger] self.nodes@[k].0 != id,
            decreases self.nodes@.len() - i,
        {
            if self.nodes[i].0 == id {
                proof {
                    let j = self.index_of(id);
                    assert(0 <= j < self.nodes@.len() && self.nodes@[j].0 == id);
                    if j != i as int {
                        if j < i {
                            assert(self.nodes@[j].0 != self.nodes@[i as int].0);
                        } else {
                            assert(self.nodes@[i as int].0 != self.nodes@[j].0);
                        }
                    }
                }
                return i;
            }
            i = i + 1;
        }
        i
    }

    /// Unlink the node from this queue, which drops its waker.
    pub fn remove(&mut self, node: &mut NodeHandle)
        requires
            old(self).wf(),
            !old(self).purged(),
            old(node).linked,
            has_id(old(self).nodes(), old(node).id),
        ensures
            final(self).wf(),
            !final(self).purged(),
            final(self).nodes() == old(self).nodes().remove(old(self).index_of(old(node).id)),
            !has_id(final(self).nodes(), old(node).id),
            !final(node).linked,
            final(node).id == old(node).id,
    {
        node.linked = false;
        let i = self.find(node.id);
        let ghost s = self.nodes@;
        self.nodes.remove(i);
        proof {
            let o = self.nodes@;
            assert(o =~= s.remove(i as int));
            assert forall|a: int, b: int| 0 <= a < b < o.len() implies #[trigger] o[a].0
                != #[trigger] o[b].0 by {
                let a2 = if a < i { a } else { a + 1 };
                let b2 = if b < i { b } else { b + 1 };
                assert(o[a] == s[a2] && o[b] == s[b2]);
            }
            if has_id(o, node.id) {
                let k = choose|k: int| 0 <= k < o.len() && #[trigger] o[k].0 == node.id;
                let k2 = if k < i { k } else { k + 1 };
                assert(o[k] == s[k2]);
            }
        }
    }

    /// Whether the node is at the front of this queue.
    pub fn is_front(&self, node: &NodeHandle) -> (r: bool)
        requires
            self.wf(),
            has_id(self.nodes(), node.id),
        ensures
            r == (self.nodes()[0].0 == node.id),
    {
        self.nodes[0].0 == node.id
    }

    /// Install a waker in the node (`true`) or drop its waker (`false`).
    pub fn set_waker(&mut self, node: &NodeHandle, waker: bool)
        requires
            old(self).wf(),
            !old(self).purged(),
            has_id(old(self).nodes(), node.id),
        ensures
            final(self).wf(),
            !final(self).purged(),
            final(self).nodes() == old(self).nodes().update(
                old(self).index_of(node.id),
                (node.id, waker),
            ),
    {
        let i = self.find(node.id);
        self.nodes.set(i, (node.id, waker));
        proof {
            let o = self.nodes@;
            assert forall|a: int, b: int| 0 <= a < b < o.len() implies #[trigger] o[a].0
                != #[trigger] o[b].0 by {
                assert(old(self).nodes()[a].0 == o[a].0 || a == i);
                assert(old(self).nodes()[b].0 == o[b].0 || b == i);
            }
        }
    }

    /// Take the waker of the node at the front of this queue, if the queue is not purged, not
    /// empty, and its front node has a waker; return that node's id, to be woken.
    pub fn wake_front(&mut self) -> (r: Option<u64>)
        requires
            old(self).wf(),
        ensures
            final(self).wf(),
            final(self).purged() == old(self).purged(),
            (!old(self).purged() && old(self).nodes().len() > 0 && old(self).nodes()[0].1) ==> r
                == Some(old(self).nodes()[0].0) && final(self).nodes() == old(self).nodes().update(
                0,
                (old(self).nodes()[0].0, false),
            ),
            !(!old(self).purged() && old(self).nodes().len() > 0 && old(self).nodes()[0].1) ==> r
                is None && final(self).nodes() == old(self).nodes(),
            r == front_woken(old(self).nodes(), old(self).purged()),
            final(self).nodes() == after_wake_front(old(self).nodes(), old(self).purged()),
    {
        if self.purged || self.nodes.len() == 0 {
            return None;
        }
        let (id, has_waker) = self.nodes[0];
        if has_waker {
            self.nodes.set(0, (id, false));
            proof {
                let o = self.nodes@;
                assert forall|a: int, b: int| 0 <= a < b < o.len() implies #[trigger] o[a].0
                    != #[trigger] o[b].0 by {
                    assert(old(self).nodes()[a].0 == o[a].0);
                    assert(old(self).nodes()[b].0 == o[b].0);
                }
            }
            Some(id)
        } else {
            None
        }
    }

    /// Purge the queue, if not already purged: it becomes empty for good, and the ids of the
    /// nodes that had wakers are returned, front first, to be woken.
    pub fn purge(&mut self) -> (r: Vec<u64>)
        requires
            old(self).wf(),
        ensures
            final(self).wf(),
            final(self).purged(),
            final(self).nodes() == Seq::<(u64, bool)>::empty(),
            old(self).purged() ==> r@ == Seq::<u64>::empty(),
            !old(self).purged() ==> r@ == woken_ids(old(self).nodes()),
    {
        if self.purged {
            return Vec::new();
        }
        self.purged = true;
        let mut woken: Vec<u64> = Vec::new();
        let mut i: usize = 0;
        let ghost s = self.nodes@;
        assert(s.skip(0) =~= s);
        while i < self.nodes.len()
            invariant
                s == self.nodes@,
                i <= s.len(),
                woken@ + woken_ids(s.skip(i as int)) == woken_ids(s),
            decreases s.len() - i,
        {
            let (id, has_waker) = self.nodes[i];
            proof {
                assert(s.skip(i as int).drop_first() =~= s.skip(i + 1));
                assert(s.skip(i as int)[0] == s[i as int]);
            }
            if has_waker {
                let ghost w = woken@;
                woken.push(id);
                assert(woken@ + woken_ids(s.skip(i + 1)) =~= w + (seq![id] + woken_ids(s.skip(i + 1))));
            }
            i = i + 1;
        }
        assert(s.skip(i as int) =~= Seq::<(u64, bool)>::empty());
        assert(woken@ + woken_ids(s.skip(i as int)) =~= woken@);
        self.nodes = Vec::new();
        woken
    }
}

} // verus!
