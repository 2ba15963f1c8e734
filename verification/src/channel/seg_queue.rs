//! First-in first-out queue of channel elements.
use std::collections::VecDeque;
use vstd::prelude::*;

verus! {

/// Number of elements a segment of about a kilobyte holds, for elements of `elem_size` bytes: at
/// least one, and `usize::MAX` for zero-sized elements, for which no segment is ever allocated.
pub fn elem_size_to_cap(elem_size: usize) -> (r: usize)
    ensures
        elem_size == 0 ==> r == usize::MAX,
        elem_size > 0 ==> r == (if 1024usize / elem_size < 1 { 1usize } else { 1024usize / elem_size }),
        r >= 1,
{
    let ideal_cap_bytes: usize = 1024;
    if elem_size == 0 {
        usize::MAX
    } else {
        let n = ideal_cap_bytes / elem_size;
        if n < 1 {
            1
        } else {
            n
        }
    }
}

/// An operation on a queue.
pub enum QueueOp<T> {
    /// Push the value to the back.
    Push(T),
    /// Pop the front.
    Pop,
}

/// One operation on a queue holding `q`: the contents after it, and what it returned (`None` for
/// a push, and for a pop from an empty queue).
pub open spec fn queue_step<T>(q: Seq<T>, op: QueueOp<T>) -> (Seq<T>, Option<T>) {
    match op {
        QueueOp::Push(t) => (q.push(t), None),
        QueueOp::Pop => if q.len() == 0 {
            (q, None)
        } else {
            (q.drop_first(), Some(q[0]))
        },
    }
}

/// The operations `ops` applied in turn to a queue holding `q`: the contents after them, and
/// what each returned.
pub open spec fn queue_run<T>(q: Seq<T>, ops: Seq<QueueOp<T>>) -> (Seq<T>, Seq<Option<T>>)
    decreases ops.len(),
{
    if ops.len() == 0 {
        (q, Seq::empty())
    } else {
        let (q1, out) = queue_step(q, ops[0]);
        let (qn, outs) = queue_run(q1, ops.skip(1));
        (qn, seq![out] + outs)
    }
}

/// The values that the operations push, in order.
pub open spec fn pushed<T>(ops: Seq<QueueOp<T>>) -> Seq<T>
    decreases ops.len(),
{
    if ops.len() == 0 {
        Seq::empty()
    } else {
        match ops[0] {
            QueueOp::Push(t) => seq![t] + pushed(ops.skip(1)),
            QueueOp::Pop => pushed(ops.skip(1)),
        }
    }
}

/// The values actually returned, in order.
pub open spec fn returned<T>(outs: Seq<Option<T>>) -> Seq<T>
    decreases outs.len(),
{
    if outs.len() == 0 {
        Seq::empty()
    } else {
        match outs[0] {
            Some(t) => seq![t] + returned(outs.skip(1)),
            None => returned(outs.skip(1)),
        }
    }
}

/// First in, first out, over any sequence of operations: the values popped are, in order, the
/// first of the values held at the start followed by those pushed, and what remains is the rest
/// of them. A pop returns nothing exactly when the queue is empty.
pub proof fn lemma_queue_fifo<T>(q: Seq<T>, ops: Seq<QueueOp<T>>)
    ensures
        returned(queue_run(q, ops).1) == (q + pushed(ops)).take(returned(queue_run(q, ops).1).len() as int),
        queue_run(q, ops).0 == (q + pushed(ops)).skip(returned(queue_run(q, ops).1).len() as int),
        queue_run(q, ops).1.len() == ops.len(),
        returned(queue_run(q, ops).1).len() <= (q + pushed(ops)).len(),
    decreases ops.len(),
{
    if ops.len() > 0 {
        let (q1, out) = queue_step(q, ops[0]);
        lemma_queue_fifo(q1, ops.skip(1));
        let rest = queue_run(q1, ops.skip(1));
        let outs = seq![out] + rest.1;
        assert(outs.skip(1) =~= rest.1);
        let g = returned(rest.1);
        let all1 = q1 + pushed(ops.skip(1));
        match ops[0] {
            QueueOp::Push(t) => {
                assert(q + pushed(ops) =~= all1);
                assert(returned(outs) == g);
            },
            QueueOp::Pop => {
                assert(pushed(ops) == pushed(ops.skip(1)));
                if q.len() == 0 {
                    assert(q1 == q);
                    assert(returned(outs) == g);
                    assert(q + pushed(ops) =~= all1);
                } else {
                    let all = q + pushed(ops);
                    assert(all =~= seq![q[0]] + all1);
                    assert(returned(outs) == seq![q[0]] + g);
                    assert(q1 == q.drop_first());
                    assert(g == all1.take(g.len() as int));
                    assert(rest.0 == all1.skip(g.len() as int));
                    assert(g.len() <= all1.len());
                    assert forall|k: int| 0 <= k < g.len() + 1 implies #[trigger] (seq![q[0]] + g)[k] == all.take(g.len() as int + 1)[k] by {
                        if k > 0 {
                            assert(g[k - 1] == all1[k - 1]);
                        }
                    }
                    assert((seq![q[0]] + g) =~= all.take(g.len() as int + 1));
                    assert(rest.0 =~= all.skip(g.len() as int + 1));
                }
            },
        }
    }
}

/// One push or pop on a `VecDeque`, as vstd specifies `push_back` and `pop_front`: the contents
/// `after` it and what it returned (`None` for a push).
pub open spec fn deque_step_ok<T>(before: Seq<T>, op: QueueOp<T>, after: Seq<T>, out: Option<T>) -> bool {
    match op {
        QueueOp::Push(t) => after == before.push(t) && out is None,
        QueueOp::Pop => match out {
            Some(x) => before.len() > 0 && x == before[0] && after == before.subrange(1, before.len() as int),
            None => before.len() == 0 && after == before,
        },
    }
}

/// A queue and a `VecDeque` that start with the same contents and go through the same pushes and
/// pops hold the same contents (so the same length) after each operation, and each pop returns
/// the same value from both.
pub proof fn lemma_queue_matches_deque<T>(
    ops: Seq<QueueOp<T>>,
    qs: Seq<Seq<T>>,
    q_outs: Seq<Option<T>>,
    ds: Seq<Seq<T>>,
    d_outs: Seq<Option<T>>,
)
    requires
        qs.len() == ops.len() + 1,
        ds.len() == ops.len() + 1,
        q_outs.len() == ops.len(),
        d_outs.len() == ops.len(),
        qs[0] == ds[0],
        forall|i: int| 0 <= i < ops.len() ==> (qs[i + 1], q_outs[i]) == #[trigger] queue_step(qs[i], ops[i]),
        forall|i: int| 0 <= i < ops.len() ==> #[trigger] deque_step_ok(ds[i], ops[i], ds[i + 1], d_outs[i]),
    ensures
        forall|i: int| 0 <= i <= ops.len() ==> #[trigger] qs[i] == ds[i] && qs[i].len() == ds[i].len(),
        forall|i: int| 0 <= i < ops.len() ==> #[trigger] q_outs[i] == d_outs[i],
{
    assert forall|i: int| 0 <= i <= ops.len() implies #[trigger] qs[i] == ds[i] && qs[i].len() == ds[i].len() by {
        lemma_queue_matches_deque_prefix(ops, qs, q_outs, ds, d_outs, i);
    }
    assert forall|i: int| 0 <= i < ops.len() implies #[trigger] q_outs[i] == d_outs[i] by {
        lemma_queue_matches_deque_prefix(ops, qs, q_outs, ds, d_outs, i + 1);
    }
}

/// The first `k` operations keep the two contents equal, and their returns agree.
proof fn lemma_queue_matches_deque_prefix<T>(
    ops: Seq<QueueOp<T>>,
    qs: Seq<Seq<T>>,
    q_outs: Seq<Option<T>>,
    ds: Seq<Seq<T>>,
    d_outs: Seq<Option<T>>,
    k: int,
)
    requires
        qs.len() == ops.len() + 1,
        ds.len() == ops.len() + 1,
        q_outs.len() == ops.len(),
        d_outs.len() == ops.len(),
        qs[0] == ds[0],
        forall|i: int| 0 <= i < ops.len() ==> (qs[i + 1], q_outs[i]) == #[trigger] queue_step(qs[i], ops[i]),
        forall|i: int| 0 <= i < ops.len() ==> #[trigger] deque_step_ok(ds[i], ops[i], ds[i + 1], d_outs[i]),
        0 <= k <= ops.len(),
    ensures
        qs[k] == ds[k],
        k > 0 ==> q_outs[k - 1] == d_outs[k - 1],
    decreases k,
{
    if k > 0 {
        let j = k - 1;
        lemma_queue_matches_deque_prefix(ops, qs, q_outs, ds, d_outs, j);
        assert((qs[j + 1], q_outs[j]) == queue_step(qs[j], ops[j]));
        assert(deque_step_ok(ds[j], ops[j], ds[j + 1], d_outs[j]));
        match ops[j] {
            QueueOp::Push(t) => {},
            QueueOp::Pop => {
                if ds[j].len() > 0 {
                    assert(ds[j].subrange(1, ds[j].len() as int) =~= ds[j].drop_first());
                }
            },
        }
    }
}

/// First-in first-out queue.
pub struct SegQueue<T> {
    elems: VecDeque<T>,
}

impl<T> SegQueue<T> {
    /// The elements, front first.
    pub closed spec fn view(&self) -> Seq<T> {
        self.elems@
    }

    /// Construct empty.
    pub fn new() -> (r: Self)
        ensures
            r@ == Seq::<T>::empty(),
    {
        SegQueue { elems: VecDeque::new() }
    }

    /// Number of elements.
    pub fn len(&self) -> (r: usize)
        ensures
            r == self@.len(),
    {
        self.elems.len()
    }

    /// Push an element to the back.
    pub fn push(&mut self, t: T)
        ensures
            final(self)@ == old(self)@.push(t),
            final(self)@ == queue_step(old(self)@, QueueOp::Push(t)).0,
    {
        self.elems.push_back(t);
    }

    /// Pop the element at the front, if any.
    pub fn pop(&mut self) -> (r: Option<T>)
        ensures
            old(self)@.len() == 0 ==> r is None && final(self)@ == old(self)@,
            old(self)@.len() > 0 ==> r == Some(old(self)@[0]) && final(self)@ == old(self)@.drop_first(),
            (final(self)@, r) == queue_step(old(self)@, QueueOp::<T>::Pop),
    {
        self.elems.pop_front()
    }
}

} // verus!
