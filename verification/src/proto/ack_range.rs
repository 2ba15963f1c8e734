//! Collections of integer ranges used to track which message numbers to acknowledge.
use super::range_set::{in_ranges, interval, ranges_set, RangeSetU64};
use vstd::prelude::*;

verus! {

/// Each range is non-empty and ends below `u64::MAX`.
pub open spec fn ranges_valid(s: Seq<(u64, u64)>) -> bool {
    forall|i: int| 0 <= i < s.len() ==> #[trigger] s[i].0 <= s[i].1 && s[i].1 < u64::MAX
}

/// Collection of integer ranges stored as a not-necessarily sorted vector.
pub struct VecAckRanges(Vec<(u64, u64)>);

impl VecAckRanges {
    /// The ranges, in insertion order.
    pub closed spec fn ranges(&self) -> Seq<(u64, u64)> {
        self.0@
    }

    /// Construct empty.
    pub fn new() -> (r: Self)
        ensures
            r.ranges() == Seq::<(u64, u64)>::empty(),
    {
        VecAckRanges(Vec::new())
    }

    /// Whether there are no ranges.
    pub fn is_empty(&self) -> (r: bool)
        ensures
            r == (self.ranges().len() == 0),
    {
        self.0.len() == 0
    }

    /// Add a single integer as a range, extending the last range when `n` directly follows it.
    /// Does not detect overlaps.
    pub fn add_point(&mut self, n: u64)
        requires
            n < u64::MAX,
            ranges_valid(old(self).ranges()),
        ensures
            ranges_valid(final(self).ranges()),
            final(self).ranges() == (if old(self).ranges().len() > 0 && old(self).ranges().last().1
                + 1 == n {
                old(self).ranges().update(
                    old(self).ranges().len() - 1,
                    (old(self).ranges().last().0, n),
                )
            } else {
                old(self).ranges().push((n, n))
            }),
            ranges_set(final(self).ranges()) == ranges_set(old(self).ranges()).insert(n),
    {
        let ghost s = self.0@;
        let len = self.0.len();
        if len > 0 && self.0[len - 1].1 < n && self.0[len - 1].1 + 1 == n {
            let start = self.0[len - 1].0;
            self.0.set(len - 1, (start, n));
            proof {
                let o = self.0@;
                assert forall|i: int| 0 <= i < o.len() implies #[trigger] o[i].0 <= o[i].1 && o[i].1
                    < u64::MAX by {
                    if i < len - 1 {
                        assert(o[i] == s[i]);
                    } else {
                        assert(s[i].0 <= s[i].1);
                    }
                }
                assert forall|x: u64| #[trigger] ranges_set(o).contains(x) <==> ranges_set(
                    s,
                ).insert(n).contains(x) by {
                    if in_ranges(o, x as int) {
                        let k = choose|k: int| 0 <= k < o.len() && #[trigger] o[k].0 <= x <= o[k].1;
                        if k < len - 1 {
                            assert(o[k] == s[k]);
                        } else if x != n {
                            assert(s[k].0 <= x <= s[k].1);
                        }
                    }
                    if in_ranges(s, x as int) {
                        let k = choose|k: int| 0 <= k < s.len() && #[trigger] s[k].0 <= x <= s[k].1;
                        if k < len - 1 {
                            assert(o[k] == s[k]);
                        } else {
                            assert(o[k].0 <= x <= o[k].1);
                        }
                    }
                    if x == n {
                        assert(o[len - 1].0 <= x <= o[len - 1].1);
                    }
                }
                assert(ranges_set(o) =~= ranges_set(s).insert(n));
            }
        } else {
            self.0.push((n, n));
            proof {
                let o = self.0@;
                assert forall|i: int| 0 <= i < o.len() implies #[trigger] o[i].0 <= o[i].1 && o[i].1
                    < u64::MAX by {
                    if i < len {
                        assert(o[i] == s[i]);
                    }
                }
                assert forall|x: u64| #[trigger] ranges_set(o).contains(x) <==> ranges_set(
                    s,
                ).insert(n).contains(x) by {
                    if in_ranges(o, x as int) {
                        let k = choose|k: int| 0 <= k < o.len() && #[trigger] o[k].0 <= x <= o[k].1;
                        if k < len {
                            assert(o[k] == s[k]);
                        }
                    }
                    if in_ranges(s, x as int) {
                        let k = choose|k: int| 0 <= k < s.len() && #[trigger] s[k].0 <= x <= s[k].1;
                        assert(o[k] == s[k]);
                    }
                    if x == n {
                        assert(o[len as int].0 <= x <= o[len as int].1);
                    }
                }
                assert(ranges_set(o) =~= ranges_set(s).insert(n));
            }
        }
    }

    /// Sort the ranges by start, merge contiguous ones, and report each overlap as an `Err`, leaving
    /// `self` empty.
    pub fn sort_merge_drain(&mut self) -> (r: Vec<Result<(u64, u64), ()>>)
        requires
            ranges_valid(old(self).ranges()),
        ensures
            final(self).ranges() == Seq::<(u64, u64)>::empty(),
            exists|sorted: Seq<(u64, u64)>|
                #![trigger merge_all(sorted)]
                sorted_by_start(sorted) && sorted.to_multiset() == old(self).ranges().to_multiset()
                    && r@ == merge_all(sorted),
    {
        let mut v: Vec<(u64, u64)> = Vec::new();
        std::mem::swap(&mut v, &mut self.0);
        let sorted = sort_by_start(v);
        proof {
            lemma_valid_permutation(old(self).ranges(), sorted@);
        }
        let r = merge_sorted_ranges(&sorted);
        r
    }
}

impl Default for VecAckRanges {
    fn default() -> (r: Self)
        ensures
            r.ranges() == Seq::<(u64, u64)>::empty(),
    {
        VecAckRanges::new()
    }
}

/// Ranges sorted by their starts.
pub open spec fn sorted_by_start(s: Seq<(u64, u64)>) -> bool {
    forall|i: int, j: int| 0 <= i < j < s.len() ==> #[trigger] s[i].0 <= #[trigger] s[j].0
}

/// Validity carries over to a permutation.
proof fn lemma_valid_permutation(a: Seq<(u64, u64)>, b: Seq<(u64, u64)>)
    requires
        ranges_valid(a),
        a.to_multiset() == b.to_multiset(),
    ensures
        ranges_valid(b),
{
    assert forall|i: int| 0 <= i < b.len() implies #[trigger] b[i].0 <= b[i].1 && b[i].1
        < u64::MAX by {
        vstd::seq_lib::to_multiset_contains(b, b[i]);
        vstd::seq_lib::to_multiset_contains(a, b[i]);
        assert(b.contains(b[i]));
        assert(a.contains(b[i]));
        let k = choose|k: int| 0 <= k < a.len() && a[k] == b[i];
        assert(a[k].0 <= a[k].1);
    }
}

/// Validity carries over to a permutation.
pub proof fn lemma_valid_permutation_pub(a: Seq<(u64, u64)>, b: Seq<(u64, u64)>)
    requires
        ranges_valid(a),
        a.to_multiset() == b.to_multiset(),
    ensures
        ranges_valid(b),
{
    lemma_valid_permutation(a, b);
}

/// Bounds on the ranges carry over to a permutation.
pub proof fn lemma_within_permutation(a: Seq<(u64, u64)>, b: Seq<(u64, u64)>, lo: int, hi: int)
    requires
        ranges_within(a, lo, hi),
        a.to_multiset() == b.to_multiset(),
    ensures
        ranges_within(b, lo, hi),
{
    assert forall|i: int| 0 <= i < b.len() implies lo <= #[trigger] b[i].0 && b[i].1 < hi by {
        vstd::seq_lib::to_multiset_contains(b, b[i]);
        vstd::seq_lib::to_multiset_contains(a, b[i]);
        assert(b.contains(b[i]));
        assert(a.contains(b[i]));
        let k = choose|k: int| 0 <= k < a.len() && a[k] == b[i];
        assert(lo <= a[k].0);
    }
}

/// Stable insertion sort of ranges by their start.
fn sort_by_start(v: Vec<(u64, u64)>) -> (r: Vec<(u64, u64)>)
    ensures
        sorted_by_start(r@),
        r@.to_multiset() == v@.to_multiset(),
{
    let mut r: Vec<(u64, u64)> = Vec::new();
    let mut i: usize = 0;
    broadcast use vstd::seq_lib::group_to_multiset_ensures;
    while i < v.len()
        invariant
            i <= v@.len(),
            sorted_by_start(r@),
            r@.to_multiset() == v@.take(i as int).to_multiset(),
        decreases v@.len() - i,
    {
        let x = v[i];
        // find the insertion point: after every range whose start is not greater
        let mut j: usize = r.len();
        while j > 0 && r[j - 1].0 > x.0
            invariant
                j <= r@.len(),
                sorted_by_start(r@),
                forall|k: int| j <= k < r@.len() ==> #[trigger] r@[k].0 > x.0,
            decreases j,
        {
            j = j - 1;
        }
        let ghost old_r = r@;
        r.insert(j, x);
        proof {
            assert(r@ =~= old_r.insert(j as int, x));
            assert forall|a: int, b: int| 0 <= a < b < r@.len() implies #[trigger] r@[a].0
                <= #[trigger] r@[b].0 by {
                if b < j {
                    assert(r@[a] == old_r[a] && r@[b] == old_r[b]);
                } else if b == j {
                    assert(r@[a] == old_r[a]);
                } else if a < j {
                    assert(r@[a] == old_r[a] && r@[b] == old_r[b - 1]);
                    assert(old_r[a].0 <= old_r[b - 1].0);
                } else if a == j {
                    assert(r@[b] == old_r[b - 1]);
                } else {
                    assert(r@[a] == old_r[a - 1] && r@[b] == old_r[b - 1]);
                }
            }
            vstd::seq_lib::to_multiset_insert(old_r, j as int, x);
            vstd::seq_lib::to_multiset_build(v@.take(i as int), x);
            assert(v@.take(i + 1) =~= v@.take(i as int).push(x));
        }
        i = i + 1;
    }
    assert(v@.take(i as int) =~= v@);
    r
}

/// What the merge yields for the sorted ranges `rest`, having a current range `[a, b]` open.
pub open spec fn merge_from(a: u64, b: u64, rest: Seq<(u64, u64)>) -> Seq<Result<(u64, u64), ()>>
    decreases rest.len(), 1int,
{
    if rest.len() == 0 {
        seq![Ok((a, b))]
    } else if rest[0].0 <= b + 1 {
        if rest[0].0 <= b {
            seq![Err(())] + merge_all(rest.skip(1))
        } else {
            merge_from(a, rest[0].1, rest.skip(1))
        }
    } else {
        seq![Ok((a, b))] + merge_all(rest)
    }
}

/// What the merge yields for the sorted ranges `s`: each maximal run of contiguous ranges as one
/// `Ok` range, and an `Err` in place of a run cut short by an overlap.
pub open spec fn merge_all(s: Seq<(u64, u64)>) -> Seq<Result<(u64, u64), ()>>
    decreases s.len(), 0int,
{
    if s.len() == 0 {
        seq![]
    } else {
        merge_from(s[0].0, s[0].1, s.skip(1))
    }
}

/// Merge sorted ranges: contiguous ranges are joined, and an overlap yields an `Err` in place of
/// the range being built.
pub fn merge_sorted_ranges(s: &Vec<(u64, u64)>) -> (r: Vec<Result<(u64, u64), ()>>)
    requires
        ranges_valid(s@),
    ensures
        r@ == merge_all(s@),
{
    let mut out: Vec<Result<(u64, u64), ()>> = Vec::new();
    let mut cur: Option<(u64, u64)> = None;
    let mut i: usize = 0;
    assert(s@.skip(0) =~= s@);
    while i < s.len()
        invariant
            i <= s@.len(),
            ranges_valid(s@),
            match cur {
                None => out@ + merge_all(s@.skip(i as int)) == merge_all(s@),
                Some((a, b)) => out@ + merge_from(a, b, s@.skip(i as int)) == merge_all(s@) && b
                    < u64::MAX,
            },
        decreases s@.len() - i,
    {
        let (a2, b2) = s[i];
        proof {
            assert(s@[i as int].0 <= s@[i as int].1);
            assert(s@.skip(i as int)[0] == s@[i as int]);
            assert(s@.skip(i as int).skip(1) =~= s@.skip(i + 1));
        }
        match cur {
            None => {
                cur = Some((a2, b2));
            },
            Some((a, b)) => {
                if a2 <= b + 1 {
                    if a2 <= b {
                        let ghost o = out@;
                        out.push(Err(()));
                        assert(out@ == o + seq![Err(())]);
                        assert(out@ + merge_all(s@.skip(i + 1)) =~= o + (seq![Err(())] + merge_all(
                            s@.skip(i + 1),
                        )));
                        cur = None;
                    } else {
                        cur = Some((a, b2));
                    }
                } else {
                    let ghost o = out@;
                    out.push(Ok((a, b)));
                    assert(out@ + merge_from(a2, b2, s@.skip(i + 1)) =~= o + (seq![Ok((a, b))]
                        + merge_all(s@.skip(i as int))));
                    cur = Some((a2, b2));
                }
            },
        }
        i = i + 1;
    }
    assert(s@.skip(i as int) =~= Seq::<(u64, u64)>::empty());
    match cur {
        None => {
            assert(out@ + merge_all(s@.skip(i as int)) =~= out@);
        },
        Some((a, b)) => {
            let ghost o = out@;
            out.push(Ok((a, b)));
            assert(o + merge_from(a, b, s@.skip(i as int)) =~= out@);
        },
    }
    out
}

/// Up to the first `Err`, the merged output is a chain of `Ok` ranges, each within `[lo, hi)` and
/// each starting more than one past the end of the one before.
pub open spec fn ok_chain(out: Seq<Result<(u64, u64), ()>>, lo: int, hi: int) -> bool
    decreases out.len(),
{
    if out.len() == 0 {
        true
    } else {
        match out[0] {
            Err(()) => true,
            Ok((a, b)) => lo <= a <= b && b < hi && ok_chain(out.skip(1), b + 2, hi),
        }
    }
}

/// Each range starts at or after `lo` and ends before `hi`.
pub open spec fn ranges_within(s: Seq<(u64, u64)>, lo: int, hi: int) -> bool {
    forall|i: int| 0 <= i < s.len() ==> lo <= #[trigger] s[i].0 && s[i].1 < hi
}

/// Merging a run that begins with `[a, b]` keeps the output a chain within the bounds.
proof fn lemma_merge_from_chain(a: u64, b: u64, rest: Seq<(u64, u64)>, lo: int, hi: int)
    requires
        lo <= a <= b,
        b < hi,
        ranges_valid(rest),
        sorted_by_start(rest),
        ranges_within(rest, a as int, hi),
    ensures
        ok_chain(merge_from(a, b, rest), lo, hi),
    decreases rest.len(), 1int,
{
    if rest.len() == 0 {
        let out = merge_from(a, b, rest);
        assert(out.skip(1) =~= Seq::<Result<(u64, u64), ()>>::empty());
        assert(ok_chain(out.skip(1), b + 2, hi));
        assert(out[0] == Ok::<(u64, u64), ()>((a, b)));
    } else {
        let r = rest.skip(1);
        assert forall|i: int| 0 <= i < r.len() implies #[trigger] r[i].0 <= r[i].1 && r[i].1 < u64::MAX by {
            assert(r[i] == rest[i + 1]);
        }
        assert forall|i: int, j: int| 0 <= i < j < r.len() implies #[trigger] r[i].0 <= #[trigger] r[j].0 by {
            assert(r[i] == rest[i + 1] && r[j] == rest[j + 1]);
        }
        assert(rest[0].0 <= rest[0].1);
        if rest[0].0 <= b + 1 {
            if rest[0].0 <= b {
                let out = merge_from(a, b, rest);
                assert(out[0] == Err::<(u64, u64), ()>(()));
            } else {
                assert forall|i: int| 0 <= i < r.len() implies a <= #[trigger] r[i].0 && r[i].1 < hi by {
                    assert(r[i] == rest[i + 1]);
                }
                lemma_merge_from_chain(a, rest[0].1, r, lo, hi);
            }
        } else {
            assert forall|i: int| 0 <= i < rest.len() implies b + 2 <= #[trigger] rest[i].0 && rest[i].1 < hi by {
                assert(rest[0].0 <= rest[i].0);
            }
            lemma_merge_all_chain(rest, b + 2, hi);
            let out = merge_from(a, b, rest);
            assert(out.skip(1) =~= merge_all(rest));
            assert(out[0] == Ok::<(u64, u64), ()>((a, b)));
            assert(out.len() > 0);
        }
    }
}

/// Merging sorted ranges within `[lo, hi)` gives a chain within the same bounds.
pub proof fn lemma_merge_all_chain(s: Seq<(u64, u64)>, lo: int, hi: int)
    requires
        ranges_valid(s),
        sorted_by_start(s),
        ranges_within(s, lo, hi),
    ensures
        ok_chain(merge_all(s), lo, hi),
    decreases s.len(), 0int,
{
    if s.len() > 0 {
        let r = s.skip(1);
        assert(s[0].0 <= s[0].1);
        assert forall|i: int| 0 <= i < r.len() implies #[trigger] r[i].0 <= r[i].1 && r[i].1 < u64::MAX by {
            assert(r[i] == s[i + 1]);
        }
        assert forall|i: int, j: int| 0 <= i < j < r.len() implies #[trigger] r[i].0 <= #[trigger] r[j].0 by {
            assert(r[i] == s[i + 1] && r[j] == s[j + 1]);
        }
        assert forall|i: int| 0 <= i < r.len() implies s[0].0 <= #[trigger] r[i].0 && r[i].1 < hi by {
            assert(r[i] == s[i + 1]);
        }
        lemma_merge_from_chain(s[0].0, s[0].1, r, lo, hi);
    }
}

/// Whether the merge output holds no `Err`.
pub open spec fn no_err(out: Seq<Result<(u64, u64), ()>>) -> bool {
    forall|i: int| 0 <= i < out.len() ==> #[trigger] out[i] is Ok
}

/// The ranges of a merge output without errors.
pub open spec fn oks(out: Seq<Result<(u64, u64), ()>>) -> Seq<(u64, u64)> {
    Seq::new(
        out.len(),
        |i: int|
            match out[i] {
                Ok(r) => r,
                Err(_) => (0u64, 0u64),
            },
    )
}

/// The integers of ranges headed by one range.
proof fn lemma_ranges_set_cons(r: (u64, u64), t: Seq<(u64, u64)>)
    ensures
        ranges_set(seq![r] + t) == interval(r.0 as int, r.1 as int).union(ranges_set(t)),
{
    let s = seq![r] + t;
    assert forall|x: u64| #[trigger] ranges_set(s).contains(x) <==> interval(r.0 as int, r.1 as int).union(ranges_set(t)).contains(x) by {
        if in_ranges(s, x as int) {
            let i = choose|i: int| 0 <= i < s.len() && #[trigger] s[i].0 <= x <= s[i].1;
            if i > 0 {
                assert(t[i - 1] == s[i]);
            }
        }
        if in_ranges(t, x as int) {
            let i = choose|i: int| 0 <= i < t.len() && #[trigger] t[i].0 <= x <= t[i].1;
            assert(s[i + 1] == t[i]);
        }
        if r.0 <= x <= r.1 {
            assert(s[0] == r);
        }
    }
    assert(ranges_set(s) =~= interval(r.0 as int, r.1 as int).union(ranges_set(t)));
}

/// Without errors, a run beginning with `[a, b]` covers `[a, b]` and the rest.
proof fn lemma_merge_from_covers(a: u64, b: u64, rest: Seq<(u64, u64)>)
    requires
        a <= b,
        ranges_valid(rest),
        no_err(merge_from(a, b, rest)),
    ensures
        ranges_set(oks(merge_from(a, b, rest))) == interval(a as int, b as int).union(ranges_set(rest)),
    decreases rest.len(), 1int,
{
    let out = merge_from(a, b, rest);
    if rest.len() == 0 {
        assert(oks(out) =~= seq![(a, b)] + Seq::<(u64, u64)>::empty());
        lemma_ranges_set_cons((a, b), Seq::<(u64, u64)>::empty());
        assert(ranges_set(rest) =~= Set::<u64>::empty());
        assert(ranges_set(Seq::<(u64, u64)>::empty()) =~= Set::<u64>::empty());
    } else {
        let r = rest.skip(1);
        assert(rest =~= seq![rest[0]] + r);
        lemma_ranges_set_cons(rest[0], r);
        assert forall|i: int| 0 <= i < r.len() implies #[trigger] r[i].0 <= r[i].1 && r[i].1 < u64::MAX by {
            assert(r[i] == rest[i + 1]);
        }
        assert(rest[0].0 <= rest[0].1);
        if rest[0].0 <= b + 1 {
            if rest[0].0 <= b {
                assert(out[0] == Err::<(u64, u64), ()>(()));
                assert(out[0] is Ok);
            } else {
                lemma_merge_from_covers(a, rest[0].1, r);
                assert(interval(a as int, b as int).union(interval(rest[0].0 as int, rest[0].1 as int))
                    =~= interval(a as int, rest[0].1 as int));
                assert(interval(a as int, b as int).union(ranges_set(rest)) =~= interval(a as int, rest[0].1 as int).union(ranges_set(r)));
            }
        } else {
            let m = merge_all(rest);
            assert(out =~= seq![Ok::<(u64, u64), ()>((a, b))] + m);
            assert forall|i: int| 0 <= i < m.len() implies #[trigger] m[i] is Ok by {
                assert(out[i + 1] == m[i]);
            }
            lemma_merge_all_covers(rest);
            assert(oks(out) =~= seq![(a, b)] + oks(m));
            lemma_ranges_set_cons((a, b), oks(m));
        }
    }
}

/// Without errors, merging covers exactly the integers of the input ranges.
proof fn lemma_merge_all_covers(s: Seq<(u64, u64)>)
    requires
        ranges_valid(s),
        no_err(merge_all(s)),
    ensures
        ranges_set(oks(merge_all(s))) == ranges_set(s),
    decreases s.len(), 0int,
{
    if s.len() == 0 {
        assert(oks(merge_all(s)) =~= Seq::<(u64, u64)>::empty());
        assert(ranges_set(s) =~= ranges_set(oks(merge_all(s))));
    } else {
        let r = s.skip(1);
        assert forall|i: int| 0 <= i < r.len() implies #[trigger] r[i].0 <= r[i].1 && r[i].1 < u64::MAX by {
            assert(r[i] == s[i + 1]);
        }
        assert(s[0].0 <= s[0].1);
        lemma_merge_from_covers(s[0].0, s[0].1, r);
        assert(s =~= seq![s[0]] + r);
        lemma_ranges_set_cons(s[0], r);
    }
}

/// Reordering ranges keeps the integers they cover.
proof fn lemma_permutation_covers(a: Seq<(u64, u64)>, b: Seq<(u64, u64)>)
    requires
        a.to_multiset() == b.to_multiset(),
    ensures
        ranges_set(a) == ranges_set(b),
{
    assert forall|x: u64| #[trigger] ranges_set(a).contains(x) <==> ranges_set(b).contains(x) by {
        if in_ranges(a, x as int) {
            let i = choose|i: int| 0 <= i < a.len() && #[trigger] a[i].0 <= x <= a[i].1;
            vstd::seq_lib::to_multiset_contains(a, a[i]);
            vstd::seq_lib::to_multiset_contains(b, a[i]);
            assert(a.contains(a[i]));
            let j = choose|j: int| 0 <= j < b.len() && b[j] == a[i];
            assert(b[j].0 <= x <= b[j].1);
        }
        if in_ranges(b, x as int) {
            let i = choose|i: int| 0 <= i < b.len() && #[trigger] b[i].0 <= x <= b[i].1;
            vstd::seq_lib::to_multiset_contains(b, b[i]);
            vstd::seq_lib::to_multiset_contains(a, b[i]);
            assert(b.contains(b[i]));
            let j = choose|j: int| 0 <= j < a.len() && a[j] == b[i];
            assert(a[j].0 <= x <= a[j].1);
        }
    }
    assert(ranges_set(a) =~= ranges_set(b));
}

/// Each range ends before the next one starts.
pub open spec fn disjoint_sorted(s: Seq<(u64, u64)>) -> bool {
    forall|i: int, j: int| 0 <= i < j < s.len() ==> #[trigger] s[i].1 < #[trigger] s[j].0
}

/// Without errors, the ranges after a run ending at `b` start after it and are disjoint.
proof fn lemma_merge_from_disjoint(a: u64, b: u64, rest: Seq<(u64, u64)>)
    requires
        ranges_valid(rest),
        sorted_by_start(rest),
        no_err(merge_from(a, b, rest)),
    ensures
        forall|i: int| 0 <= i < rest.len() ==> #[trigger] rest[i].0 > b,
        disjoint_sorted(rest),
    decreases rest.len(), 1int,
{
    let out = merge_from(a, b, rest);
    if rest.len() > 0 {
        let r = rest.skip(1);
        assert forall|i: int| 0 <= i < r.len() implies #[trigger] r[i].0 <= r[i].1 && r[i].1 < u64::MAX by {
            assert(r[i] == rest[i + 1]);
        }
        assert forall|i: int, j: int| 0 <= i < j < r.len() implies #[trigger] r[i].0 <= #[trigger] r[j].0 by {
            assert(r[i] == rest[i + 1] && r[j] == rest[j + 1]);
        }
        assert(rest[0].0 <= rest[0].1);
        if rest[0].0 <= b + 1 {
            if rest[0].0 <= b {
                assert(out[0] == Err::<(u64, u64), ()>(()));
                assert(out[0] is Ok);
            } else {
                lemma_merge_from_disjoint(a, rest[0].1, r);
                assert forall|i: int| 0 <= i < rest.len() implies #[trigger] rest[i].0 > b by {
                    if i > 0 {
                        assert(r[i - 1] == rest[i]);
                    }
                }
                assert forall|i: int, j: int| 0 <= i < j < rest.len() implies #[trigger] rest[i].1 < #[trigger] rest[j].0 by {
                    assert(r[j - 1] == rest[j]);
                    if i > 0 {
                        assert(r[i - 1] == rest[i]);
                    }
                }
            }
        } else {
            let m = merge_all(rest);
            assert(out =~= seq![Ok::<(u64, u64), ()>((a, b))] + m);
            assert forall|i: int| 0 <= i < m.len() implies #[trigger] m[i] is Ok by {
                assert(out[i + 1] == m[i]);
            }
            lemma_merge_all_disjoint(rest);
            assert forall|i: int| 0 <= i < rest.len() implies #[trigger] rest[i].0 > b by {
                assert(rest[0].0 <= rest[i].0);
            }
        }
    }
}

/// Without errors, merged sorted ranges were disjoint.
proof fn lemma_merge_all_disjoint(s: Seq<(u64, u64)>)
    requires
        ranges_valid(s),
        sorted_by_start(s),
        no_err(merge_all(s)),
    ensures
        disjoint_sorted(s),
    decreases s.len(), 0int,
{
    if s.len() > 0 {
        let r = s.skip(1);
        assert forall|i: int| 0 <= i < r.len() implies #[trigger] r[i].0 <= r[i].1 && r[i].1 < u64::MAX by {
            assert(r[i] == s[i + 1]);
        }
        assert forall|i: int, j: int| 0 <= i < j < r.len() implies #[trigger] r[i].0 <= #[trigger] r[j].0 by {
            assert(r[i] == s[i + 1] && r[j] == s[j + 1]);
        }
        lemma_merge_from_disjoint(s[0].0, s[0].1, r);
        assert forall|i: int, j: int| 0 <= i < j < s.len() implies #[trigger] s[i].1 < #[trigger] s[j].0 by {
            assert(r[j - 1] == s[j]);
            if i > 0 {
                assert(r[i - 1] == s[i]);
            }
        }
    }
}

/// When sorting and merging reports no overlap, the sorted ranges were pairwise disjoint, and the
/// merged ranges cover exactly the integers of the ranges added, in ascending order, each
/// starting more than one past the end of the one before.
pub proof fn lemma_sort_merge_covers(added: Seq<(u64, u64)>, sorted: Seq<(u64, u64)>)
    requires
        ranges_valid(added),
        sorted_by_start(sorted),
        sorted.to_multiset() == added.to_multiset(),
        no_err(merge_all(sorted)),
    ensures
        ranges_set(oks(merge_all(sorted))) == ranges_set(added),
        ok_chain(merge_all(sorted), 0, u64::MAX as int),
        disjoint_sorted(sorted),
{
    lemma_valid_permutation(added, sorted);
    lemma_merge_all_disjoint(sorted);
    lemma_valid_permutation(added, sorted);
    lemma_merge_all_covers(sorted);
    lemma_permutation_covers(added, sorted);
    assert forall|i: int| 0 <= i < sorted.len() implies 0 <= #[trigger] sorted[i].0 && sorted[i].1 < u64::MAX by {}
    lemma_merge_all_chain(sorted, 0, u64::MAX as int);
}

/// No two of the ranges share an integer.
pub open spec fn pairwise_disjoint(s: Seq<(u64, u64)>) -> bool {
    forall|i: int, j: int|
        0 <= i < s.len() && 0 <= j < s.len() && i != j ==> #[trigger] s[i].1 < #[trigger] s[j].0
            || s[j].1 < s[i].0
}

/// After a run ending at `b`, disjoint sorted ranges that all start after `b` merge without error.
proof fn lemma_merge_from_no_err(a: u64, b: u64, rest: Seq<(u64, u64)>)
    requires
        ranges_valid(rest),
        disjoint_sorted(rest),
        forall|i: int| 0 <= i < rest.len() ==> #[trigger] rest[i].0 > b,
    ensures
        no_err(merge_from(a, b, rest)),
    decreases rest.len(), 1int,
{
    if rest.len() > 0 {
        let r = rest.skip(1);
        assert forall|i: int| 0 <= i < r.len() implies #[trigger] r[i].0 <= r[i].1 && r[i].1 < u64::MAX by {
            assert(r[i] == rest[i + 1]);
        }
        assert forall|i: int, j: int| 0 <= i < j < r.len() implies #[trigger] r[i].1 < #[trigger] r[j].0 by {
            assert(r[i] == rest[i + 1] && r[j] == rest[j + 1]);
        }
        assert forall|i: int| 0 <= i < r.len() implies #[trigger] r[i].0 > rest[0].1 by {
            assert(r[i] == rest[i + 1]);
            assert(rest[0].1 < rest[i + 1].0);
        }
        assert(rest[0].0 <= rest[0].1);
        if rest[0].0 <= b + 1 {
            lemma_merge_from_no_err(a, rest[0].1, r);
        } else {
            lemma_merge_all_no_err(rest);
            let m = merge_all(rest);
            let out = merge_from(a, b, rest);
            assert(out =~= seq![Ok::<(u64, u64), ()>((a, b))] + m);
            assert forall|i: int| 0 <= i < out.len() implies #[trigger] out[i] is Ok by {
                if i > 0 {
                    assert(out[i] == m[i - 1]);
                }
            }
        }
    }
}

/// Disjoint sorted ranges merge without error.
proof fn lemma_merge_all_no_err(s: Seq<(u64, u64)>)
    requires
        ranges_valid(s),
        disjoint_sorted(s),
    ensures
        no_err(merge_all(s)),
    decreases s.len(), 0int,
{
    if s.len() > 0 {
        let r = s.skip(1);
        assert forall|i: int| 0 <= i < r.len() implies #[trigger] r[i].0 <= r[i].1 && r[i].1 < u64::MAX by {
            assert(r[i] == s[i + 1]);
        }
        assert forall|i: int, j: int| 0 <= i < j < r.len() implies #[trigger] r[i].1 < #[trigger] r[j].0 by {
            assert(r[i] == s[i + 1] && r[j] == s[j + 1]);
        }
        assert forall|i: int| 0 <= i < r.len() implies #[trigger] r[i].0 > s[0].1 by {
            assert(r[i] == s[i + 1]);
            assert(s[0].1 < s[i + 1].0);
        }
        lemma_merge_from_no_err(s[0].0, s[0].1, r);
    }
}

/// When no two of the ranges added share an integer, sorting and merging them reports no overlap.
pub proof fn lemma_disjoint_sort_merge_no_err(added: Seq<(u64, u64)>, sorted: Seq<(u64, u64)>)
    requires
        ranges_valid(added),
        pairwise_disjoint(added),
        sorted_by_start(sorted),
        sorted.to_multiset() == added.to_multiset(),
    ensures
        no_err(merge_all(sorted)),
{
    broadcast use vstd::seq_lib::group_to_multiset_ensures;
    lemma_valid_permutation(added, sorted);
    assert(added.no_duplicates()) by {
        assert forall|i: int, j: int| 0 <= i < added.len() && 0 <= j < added.len() && i != j implies added[i] != added[j] by {
            assert(added[i].1 < added[j].0 || added[j].1 < added[i].0);
            assert(added[i].0 <= added[i].1);
        }
    }
    added.lemma_multiset_has_no_duplicates();
    sorted.lemma_multiset_has_no_duplicates_conv();
    assert forall|i: int, j: int| 0 <= i < j < sorted.len() implies #[trigger] sorted[i].1 < #[trigger] sorted[j].0 by {
        let x = sorted[i];
        let y = sorted[j];
        assert(sorted.contains(x));
        assert(sorted.contains(y));
        assert(added.to_multiset().count(x) > 0);
        assert(added.to_multiset().count(y) > 0);
        assert(added.contains(x));
        assert(added.contains(y));
        let ix = choose|k: int| 0 <= k < added.len() && added[k] == x;
        let iy = choose|k: int| 0 <= k < added.len() && added[k] == y;
        assert(x != y);
        assert(ix != iy);
        assert(added[ix].1 < added[iy].0 || added[iy].1 < added[ix].0);
        assert(sorted[i].0 <= sorted[j].0);
    }
    lemma_merge_all_no_err(sorted);
}

/// Collection of non-overlapping integer ranges kept sorted, for acknowledging message numbers.
pub struct TreeAckRanges(RangeSetU64);

impl TreeAckRanges {
    /// The integers covered.
    pub closed spec fn view(&self) -> Set<u64> {
        self.0.view()
    }

    /// Well-formedness.
    pub closed spec fn wf(&self) -> bool {
        self.0.wf()
    }

    /// The sorted ranges.
    pub closed spec fn range_seq(&self) -> Seq<(u64, u64)> {
        self.0.ranges()
    }

    /// Construct empty.
    pub fn new() -> (r: Self)
        ensures
            r.wf(),
            r.view() == Set::<u64>::empty(),
    {
        TreeAckRanges(RangeSetU64::new())
    }

    /// The ranges, in ascending order.
    pub fn ranges(&self) -> (r: Vec<(u64, u64)>)
        ensures
            r@ == self.range_seq(),
    {
        self.0.iter()
    }

    /// Add the integer range `[a, b]`; error, changing nothing, if it overlaps what is there.
    pub fn add_range(&mut self, a: u64, b: u64) -> (r: Result<(), ()>)
        requires
            old(self).wf(),
            a <= b,
            b < u64::MAX,
        ensures
            final(self).wf(),
            r is Err <==> !old(self).view().intersect(interval(a as int, b as int)).is_empty(),
            r is Err ==> final(self).view() == old(self).view(),
            r is Ok ==> final(self).view() == old(self).view().union(interval(a as int, b as int)),
    {
        if self.0.intersects(a, b) {
            Err(())
        } else {
            self.0.insert(a, b);
            Ok(())
        }
    }

    /// The first integer that is not within a range.
    pub fn first_unacked_point(&self) -> (r: u64)
        requires
            self.wf(),
        ensures
            !self.view().contains(r),
            forall|x: u64| x < r ==> self.view().contains(x),
    {
        let first = self.0.first_range_entry();
        proof {
            self.0.lemma_first_range();
        }
        match first {
            Some(e) => {
                if e.start() == 0 {
                    e.end() + 1
                } else {
                    0
                }
            },
            None => 0,
        }
    }
}

impl Default for TreeAckRanges {
    fn default() -> (r: Self)
        ensures
            r.wf(),
            r.view() == Set::<u64>::empty(),
    {
        TreeAckRanges::new()
    }
}

} // verus!
