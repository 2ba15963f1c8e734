//! Set of `u64`s kept as sorted ranges.
use vstd::prelude::*;

verus! {

/// Whether `x` lies in one of the inclusive ranges.
pub open spec fn in_ranges(s: Seq<(u64, u64)>, x: int) -> bool {
    exists|i: int| 0 <= i < s.len() && #[trigger] s[i].0 <= x <= s[i].1
}

/// The integers in the inclusive ranges.
pub open spec fn ranges_set(s: Seq<(u64, u64)>) -> Set<u64> {
    Set::new(|x: u64| in_ranges(s, x as int))
}

/// The ranges are non-empty, below `u64::MAX`, sorted, and neither overlap nor touch.
pub open spec fn ranges_wf(s: Seq<(u64, u64)>) -> bool {
    &&& forall|i: int| 0 <= i < s.len() ==> #[trigger] s[i].0 <= s[i].1 && s[i].1 < u64::MAX
    &&& forall|i: int, j: int| 0 <= i < j < s.len() ==> #[trigger] s[i].1 + 1 < #[trigger] s[j].0
}

/// The integers from `n` to `m` inclusive.
pub open spec fn interval(n: int, m: int) -> Set<u64> {
    Set::new(|x: u64| n <= x <= m)
}

/// In well-formed ranges, a range that ends before `x - 1` is followed only by ranges that are
/// wholly before or after.
proof fn lemma_ranges_split(s: Seq<(u64, u64)>, k: int)
    requires
        ranges_wf(s),
        0 <= k <= s.len(),
    ensures
        forall|x: int| #[trigger] in_ranges(s, x) <==> (in_ranges(s.take(k), x) || in_ranges(s.skip(k), x)),
{
    assert forall|x: int| #[trigger] in_ranges(s, x) implies (in_ranges(s.take(k), x) || in_ranges(
        s.skip(k),
        x,
    )) by {
        let i = choose|i: int| 0 <= i < s.len() && #[trigger] s[i].0 <= x <= s[i].1;
        if i < k {
            assert(s.take(k)[i] == s[i]);
        } else {
            assert(s.skip(k)[i - k] == s[i]);
        }
    }
    assert forall|x: int| (in_ranges(s.take(k), x) || in_ranges(s.skip(k), x)) implies #[trigger] in_ranges(
        s,
        x,
    ) by {
        if in_ranges(s.take(k), x) {
            let i = choose|i: int| 0 <= i < s.take(k).len() && #[trigger] s.take(k)[i].0 <= x <= s.take(k)[i].1;
            assert(s[i] == s.take(k)[i]);
        } else {
            let i = choose|i: int| 0 <= i < s.skip(k).len() && #[trigger] s.skip(k)[i].0 <= x <= s.skip(k)[i].1;
            assert(s[i + k] == s.skip(k)[i]);
        }
    }
}

/// Membership in ranges with a range pushed onto the end.
proof fn lemma_in_ranges_push(s: Seq<(u64, u64)>, r: (u64, u64), x: int)
    ensures
        in_ranges(s.push(r), x) <==> (in_ranges(s, x) || (r.0 <= x <= r.1)),
{
    if in_ranges(s.push(r), x) {
        let i = choose|i: int| 0 <= i < s.push(r).len() && #[trigger] s.push(r)[i].0 <= x <= s.push(r)[i].1;
        if i < s.len() {
            assert(s[i] == s.push(r)[i]);
        }
    }
    if in_ranges(s, x) {
        let i = choose|i: int| 0 <= i < s.len() && #[trigger] s[i].0 <= x <= s[i].1;
        assert(s.push(r)[i] == s[i]);
    }
    if r.0 <= x <= r.1 {
        assert(s.push(r)[s.len() as int] == r);
    }
}

/// Set of u64, all of which are strictly less than `u64::MAX`, represented as a sorted sequence
/// of non-overlapping, non-empty, non-contiguous ranges.
pub struct RangeSetU64 {
    ranges: Vec<(u64, u64)>,
}

impl RangeSetU64 {
    /// The ranges.
    pub closed spec fn ranges(&self) -> Seq<(u64, u64)> {
        self.ranges@
    }

    /// The set of integers.
    pub open spec fn view(&self) -> Set<u64> {
        ranges_set(self.ranges())
    }

    /// Well-formedness.
    pub open spec fn wf(&self) -> bool {
        ranges_wf(self.ranges())
    }

    /// Construct empty.
    pub fn new() -> (r: RangeSetU64)
        ensures
            r.wf(),
            r.view() == Set::<u64>::empty(),
            r.ranges() == Seq::<(u64, u64)>::empty(),
    {
        let r = RangeSetU64 { ranges: Vec::new() };
        assert(r.view() =~= Set::<u64>::empty());
        r
    }

    /// Insert the range `[n, m]`, returning whether any of it was already present.
    pub fn insert(&mut self, n: u64, m: u64) -> (intersected: bool)
        requires
            old(self).wf(),
            n <= m,
            m < u64::MAX,
        ensures
            final(self).wf(),
            final(self).view() == old(self).view().union(interval(n as int, m as int)),
            intersected == !old(self).view().intersect(interval(n as int, m as int)).is_empty(),
    {
        let ghost s = self.ranges@;
        let len = self.ranges.len();
        let mut out: Vec<(u64, u64)> = Vec::new();
        let mut i: usize = 0;
        // ranges wholly before [n, m], not touching it
        while i < len && n > 0 && self.ranges[i].1 < n - 1
            invariant
                s == self.ranges@,
                ranges_wf(s),
                len == s.len(),
                i <= len,
                out@ == s.take(i as int),
                forall|k: int| 0 <= k < i ==> s[k].1 + 1 < n,
            decreases len - i,
        {
            out.push(self.ranges[i]);
            assert(s.take(i + 1) =~= s.take(i as int).push(s[i as int]));
            i = i + 1;
        }
        let ghost i0 = i as int;
        // ranges touching or overlapping [n, m] merge into [lo, hi]
        let mut lo = n;
        let mut hi = m;
        let mut intersected = false;
        while i < len && self.ranges[i].0 <= m + 1
            invariant
                s == self.ranges@,
                ranges_wf(s),
                len == s.len(),
                n <= m < u64::MAX,
                0 <= i0 <= i <= len,
                out@ == s.take(i0),
                forall|k: int| 0 <= k < i0 ==> s[k].1 + 1 < n,
                i0 < len ==> s[i0].1 + 1 >= n,
                i == i0 ==> lo == n && hi == m,
                i > i0 ==> lo == (if s[i0].0 < n { s[i0].0 } else { n }),
                i > i0 ==> hi == (if s[i - 1].1 > m { s[i - 1].1 } else { m }),
                forall|x: int| (lo <= x <= hi) <==> ((n <= x <= m) || #[trigger] in_ranges(
                    s.subrange(i0, i as int),
                    x,
                )),
                intersected <==> exists|x: int| (n <= x <= m) && #[trigger] in_ranges(
                    s.subrange(i0, i as int),
                    x,
                ),
            decreases len - i,
        {
            let (a, b) = self.ranges[i];
            let ghost sub = s.subrange(i0, i as int);
            assert(a == s[i as int].0 && b == s[i as int].1);
            assert(s.subrange(i0, i + 1) =~= sub.push((a, b)));
            proof {
                // the new range touches [lo, hi]
                if i as int > i0 {
                    assert(s[i0].1 + 1 < s[i as int].0);
                    assert(s[i - 1].1 + 1 < s[i as int].0);
                }
                if a <= m && b >= n {
                    let w = if a >= n { a as int } else { n as int };
                    lemma_in_ranges_push(sub, (a, b), w);
                }
                if intersected {
                    let x = choose|x: int| (n <= x <= m) && #[trigger] in_ranges(sub, x);
                    lemma_in_ranges_push(sub, (a, b), x);
                }
                if exists|x: int| (n <= x <= m) && #[trigger] in_ranges(s.subrange(i0, i + 1), x) {
                    let x = choose|x: int| (n <= x <= m) && #[trigger] in_ranges(s.subrange(i0, i + 1), x);
                    lemma_in_ranges_push(sub, (a, b), x);
                }
            }
            if a <= m && b >= n {
                intersected = true;
            }
            if a < lo {
                lo = a;
            }
            if b > hi {
                hi = b;
            }
            proof {
                assert forall|x: int| (lo <= x <= hi) <==> ((n <= x <= m) || #[trigger] in_ranges(
                    s.subrange(i0, i + 1),
                    x,
                )) by {
                    lemma_in_ranges_push(sub, (a, b), x);
                }
            }
            i = i + 1;
        }
        let ghost i1 = i as int;
        proof {
            if i1 < len && i1 > i0 {
                assert(s[i1 - 1].1 + 1 < s[i1].0);
            }
            if i1 > i0 {
                assert(s[i1 - 1].0 <= s[i1 - 1].1);
            }
        }
        out.push((lo, hi));
        // ranges wholly after [n, m], not touching it
        let ghost mid = out@;
        while i < len
            invariant
                s == self.ranges@,
                len == s.len(),
                0 <= i1 <= i <= len,
                out@ == mid + s.subrange(i1, i as int),
            decreases len - i,
        {
            out.push(self.ranges[i]);
            assert(s.subrange(i1, i + 1) =~= s.subrange(i1, i as int).push(s[i as int]));
            i = i + 1;
        }
        proof {
            assert(mid =~= s.take(i0).push((lo, hi)));
            assert(out@ =~= s.take(i0).push((lo, hi)) + s.skip(i1));
            assert(s.skip(i0) =~= s.subrange(i0, i1) + s.skip(i1));
            lemma_ranges_split(s, i0);
            lemma_ranges_concat_in(s.subrange(i0, i1), s.skip(i1));
            lemma_ranges_concat_in(s.take(i0).push((lo, hi)), s.skip(i1));
            // well-formedness of the output
            assert(ranges_wf(out@)) by {
                lemma_wf_insert(s, i0, i1, lo, hi, n, m);
            }
            assert forall|x: u64| #![trigger ranges_set(out@).contains(x)] ranges_set(
                out@,
            ).contains(x) <==> (ranges_set(s).contains(x) || interval(n as int, m as int).contains(
                x,
            )) by {
                lemma_in_ranges_push(s.take(i0), (lo, hi), x as int);
            }
            assert(ranges_set(out@) =~= ranges_set(s).union(interval(n as int, m as int)));
            // intersection: only the merged ranges can meet [n, m]
            if intersected {
                let x = choose|x: int| (n <= x <= m) && #[trigger] in_ranges(s.subrange(i0, i1), x);
                assert(in_ranges(s, x));
                assert(ranges_set(s).intersect(interval(n as int, m as int)).contains(x as u64));
            } else {
                assert forall|x: u64| !ranges_set(s).intersect(
                    interval(n as int, m as int),
                ).contains(x) by {
                    if ranges_set(s).contains(x) && n <= x <= m {
                        if in_ranges(s.take(i0), x as int) {
                            let k = choose|k: int| 0 <= k < s.take(i0).len() && #[trigger] s.take(i0)[k].0 <= x
                                <= s.take(i0)[k].1;
                            assert(s.take(i0)[k] == s[k]);
                        } else if in_ranges(s.skip(i1), x as int) {
                            let k = choose|k: int| 0 <= k < s.skip(i1).len() && #[trigger] s.skip(i1)[k].0 <= x
                                <= s.skip(i1)[k].1;
                            assert(s.skip(i1)[k] == s[k + i1]);
                        }
                    }
                }
                assert(ranges_set(s).intersect(interval(n as int, m as int)) =~= Set::<
                    u64,
                >::empty());
            }
        }
        self.ranges = out;
        intersected
    }
}

impl RangeSetU64 {
    /// Whether the set contains `n`.
    pub fn contains(&self, n: u64) -> (r: bool)
        ensures
            r == self.view().contains(n),
    {
        let ghost s = self.ranges@;
        let mut i: usize = 0;
        while i < self.ranges.len()
            invariant
                s == self.ranges@,
                i <= s.len(),
                forall|k: int| 0 <= k < i ==> !(#[trigger] s[k].0 <= n <= s[k].1),
            decreases s.len() - i,
        {
            let (a, b) = self.ranges[i];
            if a <= n && n <= b {
                assert(in_ranges(s, n as int));
                return true;
            }
            i = i + 1;
        }
        assert(!in_ranges(s, n as int));
        false
    }

    /// In well-formed ranges the first range holds the smallest elements: each integer from its
    /// start to its end is in the set, the integer after its end is not, and no integer below its
    /// start is.
    pub proof fn lemma_first_range(&self)
        requires
            self.wf(),
        ensures
            self.ranges().len() == 0 ==> self.view() == Set::<u64>::empty(),
            self.ranges().len() > 0 ==> {
                let (a, b) = self.ranges()[0];
                &&& forall|x: u64| a <= x <= b ==> self.view().contains(x)
                &&& !self.view().contains((b + 1) as u64)
                &&& forall|x: u64| x < a ==> !self.view().contains(x)
            },
    {
        let s = self.ranges();
        if s.len() == 0 {
            assert(self.view() =~= Set::<u64>::empty());
        } else {
            let (a, b) = s[0];
            assert forall|x: u64| a <= x <= b implies self.view().contains(x) by {
                assert(s[0].0 <= x <= s[0].1);
            }
            assert(!self.view().contains((b + 1) as u64)) by {
                assert(s[0].0 <= s[0].1 && s[0].1 < u64::MAX);
                if in_ranges(s, b + 1) {
                    let k = choose|k: int| 0 <= k < s.len() && #[trigger] s[k].0 <= b + 1 <= s[k].1;
                    if k > 0 {
                        assert(s[0].1 + 1 < s[k].0);
                    }
                }
            }
            assert forall|x: u64| x < a implies !self.view().contains(x) by {
                if in_ranges(s, x as int) {
                    let k = choose|k: int| 0 <= k < s.len() && #[trigger] s[k].0 <= x <= s[k].1;
                    if k > 0 {
                        assert(s[0].1 + 1 < s[k].0);
                    }
                }
            }
        }
    }

    /// The least integer absent from the set: the end of the first range plus one if that range
    /// starts at zero, else zero.
    pub fn min_absent(&self) -> (r: u64)
        requires
            self.wf(),
        ensures
            r == (if self.ranges().len() > 0 && self.ranges()[0].0 == 0 {
                (self.ranges()[0].1 + 1) as u64
            } else {
                0u64
            }),
            !self.view().contains(r),
            forall|x: u64| x < r ==> self.view().contains(x),
    {
        proof {
            self.lemma_first_range();
        }
        if self.ranges.len() > 0 && self.ranges[0].0 == 0 {
            self.ranges[0].1 + 1
        } else {
            proof {
                if self.ranges@.len() > 0 {
                    assert(!self.view().contains(0u64));
                }
            }
            0
        }
    }

    /// Whether any integer of `[n, m]` is in the set.
    pub fn intersects(&self, n: u64, m: u64) -> (r: bool)
        requires
            self.wf(),
            n <= m,
        ensures
            r == !self.view().intersect(interval(n as int, m as int)).is_empty(),
    {
        let ghost s = self.ranges@;
        let mut i: usize = 0;
        while i < self.ranges.len()
            invariant
                s == self.ranges@,
                ranges_wf(s),
                n <= m,
                i <= s.len(),
                forall|k: int| 0 <= k < i ==> !(#[trigger] s[k].0 <= m && n <= s[k].1),
            decreases s.len() - i,
        {
            let (a, b) = self.ranges[i];
            if a <= m && n <= b {
                let x = if a >= n { a } else { n };
                assert(s[i as int].0 <= x <= s[i as int].1);
                assert(in_ranges(s, x as int));
                assert(self.view().contains(x));
                assert(interval(n as int, m as int).contains(x));
                assert(self.view().intersect(interval(n as int, m as int)).contains(x));
                return true;
            }
            i = i + 1;
        }
        assert forall|x: u64| !#[trigger] self.view().intersect(interval(n as int, m as int)).contains(x) by {
            if in_ranges(s, x as int) && n <= x <= m {
                let k = choose|k: int| 0 <= k < s.len() && #[trigger] s[k].0 <= x <= s[k].1;
                assert(!(s[k].0 <= m && n <= s[k].1));
            }
        }
        assert(self.view().intersect(interval(n as int, m as int)) =~= Set::<u64>::empty());
        false
    }

    /// The ranges, in ascending order.
    pub fn iter(&self) -> (r: Vec<(u64, u64)>)
        ensures
            r@ == self.ranges(),
    {
        let mut out: Vec<(u64, u64)> = Vec::new();
        let mut i: usize = 0;
        while i < self.ranges.len()
            invariant
                i <= self.ranges@.len(),
                out@ == self.ranges@.take(i as int),
            decreases self.ranges@.len() - i,
        {
            out.push(self.ranges[i]);
            assert(self.ranges@.take(i + 1) =~= self.ranges@.take(i as int).push(self.ranges@[i as int]));
            i = i + 1;
        }
        assert(self.ranges@.take(i as int) =~= self.ranges@);
        out
    }

    /// Remove all content.
    pub fn clear(&mut self)
        ensures
            final(self).wf(),
            final(self).view() == Set::<u64>::empty(),
            final(self).ranges() == Seq::<(u64, u64)>::empty(),
    {
        self.ranges = Vec::new();
        assert(self.view() =~= Set::<u64>::empty());
    }

    /// Whether the set is empty.
    pub fn is_empty(&self) -> (r: bool)
        requires
            self.wf(),
        ensures
            r == (self.view() == Set::<u64>::empty()),
            r == (self.ranges().len() == 0),
    {
        if self.ranges.len() == 0 {
            assert(self.view() =~= Set::<u64>::empty());
            true
        } else {
            let a = self.ranges[0].0;
            assert(in_ranges(self.ranges@, a as int));
            assert(self.view().contains(a));
            false
        }
    }

    /// The first (lowest) range, if any, for in-place manipulation.
    pub fn first_range_entry(&self) -> (r: Option<RangeEntry>)
        ensures
            self.ranges().len() == 0 <==> r is None,
            r matches Some(e) ==> (e.start == self.ranges()[0].0 && e.end == self.ranges()[0].1),
    {
        if self.ranges.len() == 0 {
            None
        } else {
            let (start, end) = self.ranges[0];
            Some(RangeEntry { start, end })
        }
    }
}

impl Default for RangeSetU64 {
    fn default() -> (r: RangeSetU64)
        ensures
            r.wf(),
            r.view() == Set::<u64>::empty(),
    {
        RangeSetU64::new()
    }
}

/// The first range of a [`RangeSetU64`], as found by `first_range_entry`.
pub struct RangeEntry {
    pub start: u64,
    pub end: u64,
}

impl RangeEntry {
    /// The start of this range.
    pub fn start(&self) -> (r: u64)
        ensures
            r == self.start,
    {
        self.start
    }

    /// The end of this range (inclusive).
    pub fn end(&self) -> (r: u64)
        ensures
            r == self.end,
    {
        self.end
    }

    /// Delete all elements of this range that are less than `n` from `set`, of which this is the
    /// first range, and return the number of elements deleted (at least one).
    pub fn delete_lt(self, set: &mut RangeSetU64, n: u64) -> (deleted: u64)
        requires
            old(set).wf(),
            old(set).ranges().len() > 0,
            old(set).ranges()[0] == (self.start, self.end),
            self.start < n,
        ensures
            final(set).wf(),
            final(set).view() == old(set).view().difference(
                interval(self.start as int, if n <= self.end { n - 1 } else { self.end as int }),
            ),
            deleted == (if n <= self.end { n - 1 } else { self.end as int }) - self.start + 1,
            final(set).ranges() == (if n <= self.end {
                old(set).ranges().update(0, (n, self.end))
            } else {
                old(set).ranges().skip(1)
            }),
    {
        let ghost s = set.ranges@;
        let ghost top: int = if n <= self.end { n - 1 } else { self.end as int };
        proof {
            assert(s[0].0 <= s[0].1);
        }
        if n <= self.end {
            set.ranges.set(0, (n, self.end));
            proof {
                let o = set.ranges@;
                assert(o =~= s.update(0, (n, self.end)));
                assert forall|i: int, j: int| 0 <= i < j < o.len() implies #[trigger] o[i].1 + 1
                    < #[trigger] o[j].0 by {
                    assert(s[i].1 + 1 < s[j].0);
                }
                assert(ranges_wf(o));
                assert forall|x: u64| #[trigger] ranges_set(o).contains(x) <==> ranges_set(s).difference(
                    interval(self.start as int, top),
                ).contains(x) by {
                    if in_ranges(o, x as int) {
                        let k = choose|k: int| 0 <= k < o.len() && #[trigger] o[k].0 <= x <= o[k].1;
                        if k > 0 {
                            assert(s[0].1 + 1 < s[k].0);
                        }
                        assert(in_ranges(s, x as int));
                    }
                    if in_ranges(s, x as int) && !(self.start <= x <= top) {
                        let k = choose|k: int| 0 <= k < s.len() && #[trigger] s[k].0 <= x <= s[k].1;
                        assert(o[k].0 <= x <= o[k].1);
                    }
                }
                assert(ranges_set(o) =~= ranges_set(s).difference(interval(self.start as int, top)));
            }
            n - self.start
        } else {
            set.ranges.remove(0);
            proof {
                let o = set.ranges@;
                assert(o =~= s.skip(1));
                assert forall|i: int, j: int| 0 <= i < j < o.len() implies #[trigger] o[i].1 + 1
                    < #[trigger] o[j].0 by {
                    assert(s[i + 1].1 + 1 < s[j + 1].0);
                }
                assert forall|i: int| 0 <= i < o.len() implies #[trigger] o[i].0 <= o[i].1 && o[i].1
                    < u64::MAX by {
                    assert(s[i + 1].0 <= s[i + 1].1);
                }
                assert(ranges_wf(o));
                assert forall|x: u64| #[trigger] ranges_set(o).contains(x) <==> ranges_set(s).difference(
                    interval(self.start as int, top),
                ).contains(x) by {
                    if in_ranges(o, x as int) {
                        let k = choose|k: int| 0 <= k < o.len() && #[trigger] o[k].0 <= x <= o[k].1;
                        assert(s[k + 1] == o[k]);
                        assert(s[0].1 + 1 < s[k + 1].0);
                        assert(in_ranges(s, x as int));
                    }
                    if in_ranges(s, x as int) && !(self.start <= x <= top) {
                        let k = choose|k: int| 0 <= k < s.len() && #[trigger] s[k].0 <= x <= s[k].1;
                        assert(o[k - 1] == s[k]);
                    }
                }
                assert(ranges_set(o) =~= ranges_set(s).difference(interval(self.start as int, top)));
            }
            self.end - self.start + 1
        }
    }
}

/// Membership in concatenated ranges.
proof fn lemma_ranges_concat_in(a: Seq<(u64, u64)>, b: Seq<(u64, u64)>)
    ensures
        forall|x: int| #[trigger] in_ranges(a + b, x) <==> (in_ranges(a, x) || in_ranges(b, x)),
{
    assert forall|x: int| #[trigger] in_ranges(a + b, x) implies (in_ranges(a, x) || in_ranges(b, x)) by {
        let i = choose|i: int| 0 <= i < (a + b).len() && #[trigger] (a + b)[i].0 <= x <= (a + b)[i].1;
        if i < a.len() {
            assert(a[i] == (a + b)[i]);
        } else {
            assert(b[i - a.len()] == (a + b)[i]);
        }
    }
    assert forall|x: int| (in_ranges(a, x) || in_ranges(b, x)) implies #[trigger] in_ranges(a + b, x) by {
        if in_ranges(a, x) {
            let i = choose|i: int| 0 <= i < a.len() && #[trigger] a[i].0 <= x <= a[i].1;
            assert((a + b)[i] == a[i]);
        } else {
            let i = choose|i: int| 0 <= i < b.len() && #[trigger] b[i].0 <= x <= b[i].1;
            assert((a + b)[i + a.len()] == b[i]);
        }
    }
}

/// The ranges after merging `[lo, hi]` in place of `s[i0..i1]` are well-formed.
proof fn lemma_wf_insert(s: Seq<(u64, u64)>, i0: int, i1: int, lo: u64, hi: u64, n: u64, m: u64)
    requires
        ranges_wf(s),
        0 <= i0 <= i1 <= s.len(),
        lo <= hi < u64::MAX,
        forall|k: int| 0 <= k < i0 ==> s[k].1 + 1 < n,
        i0 < i1 ==> lo == (if s[i0].0 < n { s[i0].0 } else { n }),
        i0 == i1 ==> lo == n,
        i1 < s.len() ==> m + 1 < s[i1].0,
        i1 < s.len() ==> hi + 1 < s[i1].0,
        lo <= n,
    ensures
        ranges_wf(s.take(i0).push((lo, hi)) + s.skip(i1)),
{
    let o = s.take(i0).push((lo, hi)) + s.skip(i1);
    assert forall|i: int| 0 <= i < o.len() implies #[trigger] o[i].0 <= o[i].1 && o[i].1
        < u64::MAX by {
        if i < i0 {
            assert(o[i] == s[i]);
        } else if i > i0 {
            assert(o[i] == s[i - i0 - 1 + i1]);
        }
    }
    assert forall|i: int, j: int| 0 <= i < j < o.len() implies #[trigger] o[i].1 + 1
        < #[trigger] o[j].0 by {
        if j < i0 {
            assert(o[i] == s[i] && o[j] == s[j]);
        } else if j == i0 {
            assert(o[i] == s[i]);
            if i0 < i1 && lo == s[i0].0 {
                assert(s[i].1 + 1 < s[i0].0);
            }
        } else if i < i0 {
            assert(o[i] == s[i] && o[j] == s[j - i0 - 1 + i1]);
            assert(s[i].1 + 1 < s[j - i0 - 1 + i1].0);
        } else if i == i0 {
            assert(o[j] == s[j - i0 - 1 + i1]);
            if j - i0 - 1 + i1 > i1 {
                assert(s[i1].1 + 1 < s[j - i0 - 1 + i1].0);
            }
        } else {
            assert(o[i] == s[i - i0 - 1 + i1] && o[j] == s[j - i0 - 1 + i1]);
        }
    }
}

} // verus!
