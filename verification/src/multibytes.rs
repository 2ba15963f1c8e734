//! A byte sequence made of several fragments, read from the front and written at the back.
use std::collections::VecDeque;
use vstd::prelude::*;

verus! {

/// Error for reading more bytes than remain.
#[derive(Debug, Copy, Clone, PartialEq, Eq, Structural)]
pub struct TooFewBytesError;

/// Written byte strings below this length are copied rather than kept as fragments.
pub const MIN_ZC_BYTES: usize = 64;

/// The bytes of the fragments, in order.
pub open spec fn flat(s: Seq<Vec<u8>>) -> Seq<u8> {
    s.map_values(|v: Vec<u8>| v@).flatten()
}

/// The bytes of fragments headed by one fragment.
proof fn lemma_flat_cons(s: Seq<Vec<u8>>)
    requires
        s.len() > 0,
    ensures
        flat(s) == s[0]@ + flat(s.drop_first()),
{
    assert(s.map_values(|v: Vec<u8>| v@).drop_first() =~= s.drop_first().map_values(|v: Vec<u8>| v@));
}

/// The bytes of fragments with one more at the back.
proof fn lemma_flat_push(s: Seq<Vec<u8>>, v: Vec<u8>)
    ensures
        flat(s.push(v)) == flat(s) + v@,
    decreases s.len(),
{
    if s.len() == 0 {
        assert(s.push(v).drop_first() =~= Seq::<Vec<u8>>::empty());
        lemma_flat_cons(s.push(v));
        assert(flat(Seq::<Vec<u8>>::empty()) =~= Seq::<u8>::empty());
        assert(flat(s) =~= Seq::<u8>::empty());
    } else {
        lemma_flat_cons(s.push(v));
        lemma_flat_cons(s);
        assert(s.push(v).drop_first() =~= s.drop_first().push(v));
        lemma_flat_push(s.drop_first(), v);
    }
}

/// A byte sequence made of non-empty fragments.
pub struct MultiBytes {
    fragments: VecDeque<Vec<u8>>,
    len: usize,
}

impl MultiBytes {
    /// The bytes.
    pub closed spec fn view(&self) -> Seq<u8> {
        flat(self.fragments@)
    }

    /// The fragments' bytes, in order.
    pub closed spec fn fragment_seq(&self) -> Seq<Seq<u8>> {
        self.fragments@.map_values(|v: Vec<u8>| v@)
    }

    /// Well-formedness: the length is counted and no fragment is empty.
    pub closed spec fn wf(&self) -> bool {
        &&& self.len == self.view().len()
        &&& forall|i: int| 0 <= i < self.fragments@.len() ==> #[trigger] self.fragments@[i]@.len() > 0
    }

    /// Construct empty.
    pub fn new() -> (r: Self)
        ensures
            r.wf(),
            r@ == Seq::<u8>::empty(),
    {
        let r = MultiBytes { fragments: VecDeque::new(), len: 0 };
        assert(flat(r.fragments@) =~= Seq::<u8>::empty());
        r
    }

    /// Construct holding the given bytes.
    pub fn from_vec(v: Vec<u8>) -> (r: Self)
        requires
            v@.len() <= usize::MAX,
        ensures
            r.wf(),
            r@ == v@,
    {
        let mut r = MultiBytes::new();
        r.push_fragment(v);
        r
    }

    /// Total number of bytes.
    pub fn len(&self) -> (r: usize)
        requires
            self.wf(),
        ensures
            r == self@.len(),
    {
        self.len
    }

    /// Add a fragment at the back, unless it is empty.
    fn push_fragment(&mut self, v: Vec<u8>)
        requires
            old(self).wf(),
            old(self)@.len() + v@.len() <= usize::MAX,
        ensures
            final(self).wf(),
            final(self)@ == old(self)@ + v@,
    {
        let ghost s = self.fragments@;
        if v.len() == 0 {
            assert(self@ =~= old(self)@ + v@);
            return;
        }
        self.len = self.len + v.len();
        let ghost vv = v@;
        self.fragments.push_back(v);
        proof {
            lemma_flat_push(s, self.fragments@.last());
            assert(self.fragments@ =~= s.push(self.fragments@.last()));
            assert forall|i: int| 0 <= i < self.fragments@.len() implies #[trigger] self.fragments@[i]@.len() > 0 by {
                if i < s.len() {
                    assert(self.fragments@[i] == s[i]);
                }
            }
        }
    }

    /// Take up to `n` bytes from the front fragment, which must exist.
    fn pop_front_bytes(&mut self, n: usize) -> (r: Vec<u8>)
        requires
            old(self).wf(),
            0 < n <= old(self)@.len(),
        ensures
            final(self).wf(),
            0 < r@.len() <= n,
            old(self)@ == r@ + final(self)@,
    {
        let ghost s = self.fragments@;
        proof {
            if s.len() == 0 {
                assert(flat(s) =~= Seq::<u8>::empty());
            }
            lemma_flat_cons(s);
        }
        let mut front = match self.fragments.pop_front() {
            Some(f) => f,
            None => Vec::new(),
        };
        proof {
            assert(front == s[0]);
            assert(self.fragments@ =~= s.drop_first());
        }
        if n < front.len() {
            let rest = front.split_off(n);
            let ghost rest_view = rest@;
            self.fragments.push_front(rest);
            self.len = self.len - n;
            proof {
                let f = self.fragments@;
                assert(f.drop_first() =~= s.drop_first());
                lemma_flat_cons(f);
                assert(s[0]@ =~= front@ + rest_view);
                assert forall|i: int| 0 <= i < f.len() implies #[trigger] f[i]@.len() > 0 by {
                    if i > 0 {
                        assert(f[i] == s[i]);
                    }
                }
            }
            front
        } else {
            self.len = self.len - front.len();
            proof {
                let f = self.fragments@;
                assert forall|i: int| 0 <= i < f.len() implies #[trigger] f[i]@.len() > 0 by {
                    assert(f[i] == s[i + 1]);
                }
            }
            front
        }
    }

    /// Copy the first `buf.len()` bytes into `buf` and advance past them; error, changing
    /// nothing, if not that many remain.
    pub fn read(&mut self, buf: &mut [u8]) -> (r: Result<(), TooFewBytesError>)
        requires
            old(self).wf(),
        ensures
            final(self).wf(),
            old(buf)@.len() > old(self)@.len() ==> (r is Err && final(self)@ == old(self)@
                && final(buf)@ == old(buf)@),
            old(buf)@.len() <= old(self)@.len() ==> (r is Ok && final(buf)@ == old(self)@.take(old(buf)@.len() as int)
                && final(self)@ == old(self)@.skip(old(buf)@.len() as int)),
    {
        let n = buf.len();
        if n > self.len {
            return Err(TooFewBytesError);
        }
        let ghost orig = self@;
        let mut done: usize = 0;
        while done < n
            invariant
                self.wf(),
                n == buf@.len(),
                done <= n,
                orig.len() >= n,
                orig == buf@.take(done as int) + self@,
            decreases n - done,
        {
            let part = self.pop_front_bytes(n - done);
            let ghost before = buf@;
            let mut k: usize = 0;
            while k < part.len()
                invariant
                    k <= part@.len(),
                    done + part@.len() <= n,
                    n == buf@.len(),
                    buf@.take(done as int) == before.take(done as int),
                    forall|q: int| 0 <= q < k ==> #[trigger] buf@[done + q] == part@[q],
                decreases part@.len() - k,
            {
                buf[done + k] = part[k];
                k = k + 1;
                proof {
                    assert(buf@.take(done as int) =~= before.take(done as int));
                }
            }
            proof {
                assert forall|j: int| 0 <= j < done + part@.len() implies #[trigger] buf@.take(done + part@.len())[j] == (before.take(done as int) + part@)[j] by {
                    if j < done {
                        assert(buf@.take(done as int)[j] == before.take(done as int)[j]);
                    } else {
                        assert(buf@[done + (j - done)] == part@[j - done]);
                    }
                }
                assert(buf@.take(done + part@.len()) =~= before.take(done as int) + part@);
            }
            done = done + part.len();
        }
        proof {
            assert(buf@.take(n as int) =~= buf@);
            assert(orig.take(n as int) =~= buf@);
            assert(orig.skip(n as int) =~= self@);
        }
        Ok(())
    }

    /// Take the next `n` bytes as a byte sequence of their own and advance past them; error,
    /// changing nothing, if not that many remain.
    pub fn read_zc(&mut self, n: usize) -> (r: Result<MultiBytes, TooFewBytesError>)
        requires
            old(self).wf(),
        ensures
            final(self).wf(),
            n > old(self)@.len() ==> (r is Err && final(self)@ == old(self)@),
            n <= old(self)@.len() ==> (r matches Ok(m) && m.wf() && m@ == old(self)@.take(n as int)
                && final(self)@ == old(self)@.skip(n as int)),
    {
        if n > self.len {
            return Err(TooFewBytesError);
        }
        let ghost orig = self@;
        let mut out = MultiBytes::new();
        let mut left = n;
        while left > 0
            invariant
                self.wf(),
                out.wf(),
                left <= n,
                left <= self@.len(),
                out@.len() == n - left,
                orig == out@ + self@,
                orig.len() >= n,
            decreases left,
        {
            let part = self.pop_front_bytes(left);
            let plen = part.len();
            out.push_fragment(part);
            left = left - plen;
            proof {
                assert(orig =~= out@ + self@);
            }
        }
        proof {
            assert(orig.take(n as int) =~= out@);
            assert(orig.skip(n as int) =~= self@);
        }
        Ok(out)
    }

    /// Advance past the next `n` bytes; error, changing nothing, if not that many remain.
    pub fn skip(&mut self, n: usize) -> (r: Result<(), TooFewBytesError>)
        requires
            old(self).wf(),
        ensures
            final(self).wf(),
            n > old(self)@.len() ==> (r is Err && final(self)@ == old(self)@),
            n <= old(self)@.len() ==> (r is Ok && final(self)@ == old(self)@.skip(n as int)),
    {
        match self.read_zc(n) {
            Ok(_) => Ok(()),
            Err(e) => Err(e),
        }
    }

    /// Append a copy of `buf`.
    pub fn write(&mut self, buf: &[u8])
        requires
            old(self).wf(),
            old(self)@.len() + buf@.len() <= usize::MAX,
        ensures
            final(self).wf(),
            final(self)@ == old(self)@ + buf@,
    {
        let mut v: Vec<u8> = Vec::new();
        let mut i: usize = 0;
        while i < buf.len()
            invariant
                i <= buf@.len(),
                v@ == buf@.take(i as int),
            decreases buf@.len() - i,
        {
            v.push(buf[i]);
            assert(buf@.take(i + 1) =~= buf@.take(i as int).push(buf@[i as int]));
            i = i + 1;
        }
        assert(buf@.take(i as int) =~= buf@);
        self.push_fragment(v);
    }

    /// Append the bytes of `bytes`: a short one is copied into one fragment, a long one keeps its
    /// fragments.
    pub fn write_zc(&mut self, bytes: MultiBytes)
        requires
            old(self).wf(),
            bytes.wf(),
            old(self)@.len() + bytes@.len() <= usize::MAX,
        ensures
            final(self).wf(),
            final(self)@ == old(self)@ + bytes@,
    {
        let ghost added = bytes@;
        let n = bytes.len();
        let mut frags = bytes.fragments();
        let ghost orig = self@;
        if n < MIN_ZC_BYTES {
            let mut v: Vec<u8> = Vec::new();
            let mut i: usize = 0;
            while i < frags.len()
                invariant
                    i <= frags@.len(),
                    flat(frags@) == added,
                    v@ == flat(frags@.take(i as int)),
                    v@.len() <= added.len(),
                    added.len() == n,
                    n < MIN_ZC_BYTES,
                decreases frags@.len() - i,
            {
                let mut k: usize = 0;
                let ghost v0 = v@;
                proof {
                    lemma_flat_push(frags@.take(i as int), frags@[i as int]);
                    assert(frags@.take(i + 1) =~= frags@.take(i as int).push(frags@[i as int]));
                    lemma_flat_prefix_len(frags@, i as int + 1);
                }
                while k < frags[i].len()
                    invariant
                        i < frags@.len(),
                        k <= frags@[i as int]@.len(),
                        v@ == v0 + frags@[i as int]@.take(k as int),
                        v0.len() + frags@[i as int]@.len() <= n,
                        n < MIN_ZC_BYTES,
                    decreases frags@[i as int]@.len() - k,
                {
                    v.push(frags[i][k]);
                    assert(frags@[i as int]@.take(k + 1) =~= frags@[i as int]@.take(k as int).push(frags@[i as int]@[k as int]));
                    k = k + 1;
                }
                assert(frags@[i as int]@.take(k as int) =~= frags@[i as int]@);
                i = i + 1;
            }
            assert(frags@.take(i as int) =~= frags@);
            self.push_fragment(v);
        } else {
            let mut i: usize = 0;
            let ghost total = frags@;
            while i < frags.len()
                invariant
                    i <= frags@.len(),
                    frags@ == total,
                    flat(total) == added,
                    self.wf(),
                    self@ == orig + flat(total.take(i as int)),
                    orig.len() + added.len() <= usize::MAX,
                decreases frags@.len() - i,
            {
                let f = frags[i].clone();
                proof {
                    lemma_flat_push(total.take(i as int), total[i as int]);
                    assert(total.take(i + 1) =~= total.take(i as int).push(total[i as int]));
                    lemma_flat_prefix_len(total, i as int + 1);
                    assert(f@ == total[i as int]@);
                }
                self.push_fragment(f);
                proof {
                    assert(self@ =~= orig + flat(total.take(i + 1)));
                }
                i = i + 1;
            }
            assert(total.take(i as int) =~= total);
        }
    }

    /// The fragments, in order; their boundaries carry no meaning.
    pub fn fragments(self) -> (r: Vec<Vec<u8>>)
        ensures
            flat(r@) == self@,
            r@.map_values(|v: Vec<u8>| v@) == self.fragment_seq(),
    {
        let mut out: Vec<Vec<u8>> = Vec::new();
        let mut frags = self.fragments;
        let ghost all = frags@;
        assert(all.skip(0) =~= all);
        assert(out@ + frags@ =~= all);
        while frags.len() > 0
            invariant
                flat(all) == flat(out@) + flat(frags@),
                out@ + frags@ == all,
            decreases frags@.len(),
        {
            let ghost s = frags@;
            let ghost o = out@;
            proof {
                lemma_flat_cons(s);
            }
            match frags.pop_front() {
                Some(f) => {
                    proof {
                        lemma_flat_push(out@, f);
                        assert(frags@ =~= s.drop_first());
                    }
                    out.push(f);
                    proof {
                        assert(out@ + frags@ =~= o + s);
                    }
                },
                None => {},
            }
        }
        assert(flat(frags@) =~= Seq::<u8>::empty());
        assert(flat(out@) + Seq::<u8>::empty() =~= flat(out@));
        assert(out@ =~= all);
        out
    }

    /// The bytes in one contiguous vector.
    pub fn defragment(self) -> (r: Vec<u8>)
        requires
            self.wf(),
        ensures
            r@ == self@,
    {
        let mut m = self;
        let n = m.len();
        let mut buf: Vec<u8> = Vec::new();
        let mut i: usize = 0;
        while i < n
            invariant
                i <= n,
                buf@.len() == i,
            decreases n - i,
        {
            buf.push(0);
            i = i + 1;
        }
        let ghost orig = m@;
        match m.read(buf.as_mut_slice()) {
            Ok(()) => {},
            Err(_) => {},
        }
        assert(orig.take(n as int) =~= orig);
        buf
    }

    /// Whether the bytes are `rhs`.
    pub fn equals_bytes(&self, rhs: &[u8]) -> (r: bool)
        requires
            self.wf(),
        ensures
            r == (self@ == rhs@),
    {
        if self.len != rhs.len() {
            return false;
        }
        let mut pos: usize = 0;
        let mut fi: usize = 0;
        let ghost s = self.fragments@;
        while fi < self.fragments.len()
            invariant
                s == self.fragments@,
                fi <= s.len(),
                self.len == rhs@.len(),
                self.wf(),
                pos == flat(s.take(fi as int)).len(),
                flat(s.take(fi as int)) == rhs@.take(pos as int),
                pos <= rhs@.len(),
            decreases s.len() - fi,
        {
            proof {
                lemma_flat_push(s.take(fi as int), s[fi as int]);
                assert(s.take(fi + 1) =~= s.take(fi as int).push(s[fi as int]));
                lemma_flat_prefix_len(s, fi as int + 1);
            }
            let f = &self.fragments[fi];
            proof {
                lemma_flat_prefix(s, fi as int + 1);
            }
            let mut k: usize = 0;
            while k < f.len()
                invariant
                    k <= f@.len(),
                    fi < s.len(),
                    f == s[fi as int],
                    s == self.fragments@,
                    self.wf(),
                    self.len == rhs@.len(),
                    pos == flat(s.take(fi as int)).len(),
                    flat(s.take(fi + 1)) == flat(s.take(fi as int)) + f@,
                    flat(s) == flat(s.take(fi + 1)) + flat(s.skip(fi + 1)),
                    forall|q: int| 0 <= q < k ==> #[trigger] f@[q] == rhs@[pos + q],
                decreases f@.len() - k,
            {
                assert(self@ == flat(s));
                if f[k] != rhs[pos + k] {
                    proof {
                        assert(flat(s.take(fi + 1))[pos + k] == f@[k as int]);
                        assert(self@[pos + k] == f@[k as int]);
                        assert(self@[pos + k] != rhs@[pos + k]);
                    }
                    return false;
                }
                k = k + 1;
            }
            proof {
                assert(flat(s.take(fi + 1)) =~= rhs@.take(pos + f@.len()));
            }
            pos = pos + f.len();
            fi = fi + 1;
        }
        proof {
            assert(s.take(fi as int) =~= s);
            assert(rhs@.take(pos as int) =~= rhs@);
        }
        true
    }

    /// Whether the two byte sequences hold the same bytes.
    pub fn equals(&self, rhs: &MultiBytes) -> (r: bool)
        requires
            self.wf(),
            rhs.wf(),
        ensures
            r == (self@ == rhs@),
    {
        let mut copy: Vec<u8> = Vec::new();
        let mut fi: usize = 0;
        let ghost s = rhs.fragments@;
        while fi < rhs.fragments.len()
            invariant
                s == rhs.fragments@,
                fi <= s.len(),
                copy@ == flat(s.take(fi as int)),
                rhs.wf(),
            decreases s.len() - fi,
        {
            proof {
                lemma_flat_push(s.take(fi as int), s[fi as int]);
                assert(s.take(fi + 1) =~= s.take(fi as int).push(s[fi as int]));
            }
            let f = &rhs.fragments[fi];
            let mut k: usize = 0;
            let ghost c0 = copy@;
            while k < f.len()
                invariant
                    k <= f@.len(),
                    copy@ == c0 + f@.take(k as int),
                decreases f@.len() - k,
            {
                copy.push(f[k]);
                assert(f@.take(k + 1) =~= f@.take(k as int).push(f@[k as int]));
                k = k + 1;
            }
            assert(f@.take(k as int) =~= f@);
            fi = fi + 1;
        }
        assert(s.take(fi as int) =~= s);
        self.equals_bytes(copy.as_slice())
    }
}

/// A prefix of the fragments holds no more bytes than all of them.
proof fn lemma_flat_prefix_len(s: Seq<Vec<u8>>, i: int)
    requires
        0 <= i <= s.len(),
    ensures
        flat(s.take(i)).len() <= flat(s).len(),
{
    lemma_flat_prefix(s, i);
}

/// The bytes of a prefix of the fragments are a prefix of the bytes.
proof fn lemma_flat_prefix(s: Seq<Vec<u8>>, i: int)
    requires
        0 <= i <= s.len(),
    ensures
        flat(s) == flat(s.take(i)) + flat(s.skip(i)),
    decreases s.len() - i,
{
    if i == s.len() {
        assert(s.take(i) =~= s);
        assert(s.skip(i) =~= Seq::<Vec<u8>>::empty());
        assert(flat(s.skip(i)) =~= Seq::<u8>::empty());
        assert(flat(s) + Seq::<u8>::empty() =~= flat(s));
    } else {
        lemma_flat_prefix(s, i + 1);
        lemma_flat_push(s.take(i), s[i]);
        assert(s.take(i + 1) =~= s.take(i).push(s[i]));
        lemma_flat_cons(s.skip(i));
        assert(s.skip(i).drop_first() =~= s.skip(i + 1));
        assert(s.skip(i)[0] == s[i]);
    }
}

} // verus!
