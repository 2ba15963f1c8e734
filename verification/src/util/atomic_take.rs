//! A value that can be taken once.
use vstd::prelude::*;

verus! {

/// Like an `Option<T>` whose value can be taken once; afterwards it is empty.
pub struct AtomicTake<T> {
    val: Option<T>,
}

impl<T> AtomicTake<T> {
    /// The value still held, if any.
    pub closed spec fn view(&self) -> Option<T> {
        self.val
    }

    /// Construct with a value.
    pub fn some(val: T) -> (r: Self)
        ensures
            r@ == Some(val),
    {
        AtomicTake { val: Some(val) }
    }

    /// Construct without a value.
    pub fn none() -> (r: Self)
        ensures
            r@ is None,
    {
        AtomicTake { val: None }
    }

    /// Take the value, if it is still there.
    pub fn take(&mut self) -> (r: Option<T>)
        ensures
            r == old(self)@,
            final(self)@ is None,
    {
        self.val.take()
    }
}

/// A run of takes: take `i` returns `outs[i]` and leaves `states[i + 1]` from `states[i]`.
pub open spec fn take_run<T>(states: Seq<Option<T>>, outs: Seq<Option<T>>) -> bool {
    &&& states.len() == outs.len() + 1
    &&& forall|i: int| 0 <= i < outs.len() ==> #[trigger] outs[i] == states[i] && states[i + 1] is None
}

/// Of any number of takes from a value constructed with `v`, the first returns `v` and every
/// later one returns nothing.
pub proof fn lemma_take_once<T>(v: T, states: Seq<Option<T>>, outs: Seq<Option<T>>)
    requires
        take_run(states, outs),
        states[0] == Some(v),
    ensures
        outs.len() > 0 ==> outs[0] == Some(v),
        forall|i: int| 0 < i < outs.len() ==> #[trigger] outs[i] is None,
{
    assert forall|i: int| 0 < i < outs.len() implies #[trigger] outs[i] is None by {
        let k = i - 1;
        assert(outs[k] == states[k] && states[k + 1] is None);
    }
}

} // verus!
