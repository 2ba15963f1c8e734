//! First-in first-out queue with a first part sized for `N` elements and an overflow part that
//! exists only once more than `N` elements have been held at once.
use std::collections::VecDeque;
use vstd::prelude::*;

verus! {

/// First-in first-out queue, with `N` the number of elements it expects to hold at most in the
/// common case. The elements are those of the first part followed by those of the overflow part;
/// once the overflow part exists, new elements go there, so that order is kept.
pub struct SmallQueue<T, const N: usize> {
    part_1: VecDeque<T>,
    part_2: Option<VecDeque<T>>,
    most_held: Ghost<nat>,
}

impl<T, const N: usize> SmallQueue<T, N> {
    /// The elements, front first.
    pub closed spec fn view(&self) -> Seq<T> {
        match self.part_2 {
            Some(p) => self.part_1@ + p@,
            None => self.part_1@,
        }
    }

    /// Whether the overflow part exists.
    pub closed spec fn has_overflow_part(&self) -> bool {
        self.part_2 is Some
    }

    /// The most elements held at once since construction.
    pub closed spec fn most_held(&self) -> nat {
        self.most_held@
    }

    /// Well-formedness: the first part holds at most `N` elements; the overflow part exists only
    /// if more than `N` elements were once held; the current length is at most the most held.
    pub closed spec fn wf(&self) -> bool {
        &&& self.part_1@.len() <= N
        &&& self.part_2 is Some ==> self.most_held@ > N
        &&& self.view().len() <= self.most_held@
        &&& self.view().len() <= usize::MAX
    }

    /// Construct empty, with no overflow part.
    pub fn new() -> (r: Self)
        ensures
            r.wf(),
            r@ == Seq::<T>::empty(),
            !r.has_overflow_part(),
            r.most_held() == 0,
    {
        SmallQueue { part_1: VecDeque::with_capacity(N), part_2: None, most_held: Ghost(0) }
    }

    /// Current length in elements.
    pub fn len(&self) -> (r: usize)
        requires
            self.wf(),
        ensures
            r == self@.len(),
    {
        match &self.part_2 {
            Some(p) => {
                proof {
                    assert(self.view().len() == self.part_1@.len() + p@.len());
                }
                self.part_1.len() + p.len()
            },
            None => self.part_1.len(),
        }
    }

    /// Whether the overflow part exists.
    pub fn overflow_allocated(&self) -> (r: bool)
        ensures
            r == self.has_overflow_part(),
    {
        self.part_2.is_some()
    }

    /// Push to the back of the queue. The overflow part is created only when the queue would
    /// otherwise hold more than `N` elements in its first part.
    pub fn push_back(&mut self, elem: T)
        requires
            old(self).wf(),
            old(self)@.len() < usize::MAX,
        ensures
            final(self).wf(),
            final(self)@ == old(self)@.push(elem),
            final(self).most_held() == if old(self)@.len() + 1 > old(self).most_held() {
                (old(self)@.len() + 1) as nat
            } else {
                old(self).most_held()
            },
            final(self).has_overflow_part() == (old(self).has_overflow_part() || old(self)@.len() + 1 > N),
    {
        let ghost before = self@;
        proof {
            if before.len() + 1 > self.most_held@ {
                self.most_held = Ghost((before.len() + 1) as nat);
            }
        }
        match &mut self.part_2 {
            Some(p) => {
                p.push_back(elem);
            },
            None => {
                if self.part_1.len() < N {
                    self.part_1.push_back(elem);
                } else {
                    let mut p: VecDeque<T> = VecDeque::new();
                    p.push_back(elem);
                    self.part_2 = Some(p);
                }
            },
        }
        proof {
            assert(self@ =~= before.push(elem));
        }
    }

    /// Pop from the front of the queue.
    pub fn pop_front(&mut self) -> (r: Option<T>)
        requires
            old(self).wf(),
        ensures
            final(self).wf(),
            old(self)@.len() == 0 ==> r is None && final(self)@ == old(self)@,
            old(self)@.len() > 0 ==> r == Some(old(self)@[0]) && final(self)@ == old(self)@.drop_first(),
            final(self).most_held() == old(self).most_held(),
            final(self).has_overflow_part() == old(self).has_overflow_part(),
    {
        let ghost before = self@;
        if self.part_1.len() > 0 {
            let r = self.part_1.pop_front();
            proof {
                assert(self@ =~= before.drop_first());
            }
            r
        } else {
            match &mut self.part_2 {
                Some(p) => {
                    let r = p.pop_front();
                    proof {
                        assert(self@ =~= if before.len() == 0 { before } else { before.drop_first() });
                    }
                    r
                },
                None => None,
            }
        }
    }

    /// The element at logical index `idx`, counting from the front.
    pub fn index(&self, idx: usize) -> (r: &T)
        requires
            self.wf(),
            idx < self@.len(),
        ensures
            *r == self@[idx as int],
    {
        if idx < self.part_1.len() {
            &self.part_1[idx]
        } else {
            match &self.part_2 {
                Some(p) => &p[idx - self.part_1.len()],
                None => &self.part_1[idx],
            }
        }
    }
}

/// A queue holds no overflow part as long as it has never held more than `N` elements at once.
pub proof fn lemma_no_overflow_until_more_than_n<T, const N: usize>(q: SmallQueue<T, N>)
    requires
        q.wf(),
        q.most_held() <= N,
    ensures
        !q.has_overflow_part(),
{
}

} // verus!
