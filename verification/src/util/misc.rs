//! Vector helpers.
use vstd::prelude::*;

verus! {

/// Remove the first `n` elements of `vec`, keeping the order of the rest.
pub fn remove_first<T>(vec: &mut Vec<T>, n: usize)
    requires
        n <= old(vec)@.len(),
    ensures
        final(vec)@ == old(vec)@.skip(n as int),
{
    if n == 0 {
        assert(vec@.skip(0) =~= vec@);
        return;
    } else if n == vec.len() {
        vec.clear();
        assert(old(vec)@.skip(n as int) =~= Seq::<T>::empty());
        return;
    }
    let mut rest = vec.split_off(n);
    std::mem::swap(vec, &mut rest);
    assert(vec@ =~= old(vec)@.skip(n as int));
}

} // verus!
