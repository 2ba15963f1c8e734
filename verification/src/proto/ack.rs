//! Acknowledging and negatively acknowledging unreliable messages on a timer.
//!
//! The timer itself is the caller's: these operations return whether to start it, and what to
//! send when it fires.
use super::ack_range::{
    lemma_merge_all_chain, lemma_within_permutation, merge_all, no_err, ok_chain, ranges_valid,
    ranges_within, sorted_by_start, VecAckRanges,
};
use super::range_set::ranges_set;
use crate::codec::common::FrameType;
use crate::codec::write::{Frames, PosNegRanges};
use crate::frame::varint::{varbytes, varint_bytes};
use vstd::prelude::*;

verus! {

/// Error in acknowledgement bookkeeping caused by the remote side.
#[derive(Debug, Copy, Clone, PartialEq, Eq, Structural)]
pub enum AckError {
    /// The remote used the message number `u64::MAX`.
    MessageNumTooHigh,
    /// A message number was received twice.
    Overlap,
}

/// What one signed delta does to a writer of positive and negative deltas with written bytes
/// `w` and pending delta `p`.
pub open spec fn pn_step(w: Seq<u8>, p: Option<(bool, u64)>, pos: bool, d: u64) -> (Seq<u8>, Option<(bool, u64)>) {
    if d == 0 {
        (w, p)
    } else {
        match p {
            None => (if !pos && w.len() == 0 { varint_bytes(0) } else { w }, Some((pos, d))),
            Some((s, q)) => if s == pos {
                (w, Some((pos, (q + d) as u64)))
            } else {
                (w + varint_bytes(q), Some((pos, d)))
            },
        }
    }
}

/// The deltas for the merged ranges `res`, from `acked`, up to the first error: for each range,
/// the negative delta of the gap before it and the positive delta of its length.
pub open spec fn ack_nack_fold(
    w: Seq<u8>,
    p: Option<(bool, u64)>,
    acked: u64,
    res: Seq<Result<(u64, u64), ()>>,
) -> (Seq<u8>, Option<(bool, u64)>, u64)
    decreases res.len(),
{
    if res.len() == 0 {
        (w, p, acked)
    } else {
        match res[0] {
            Err(()) => (w, p, acked),
            Ok((a, b)) => {
                let s1 = pn_step(w, p, false, (a - acked) as u64);
                let s2 = pn_step(s1.0, s1.1, true, (b - a + 1) as u64);
                ack_nack_fold(s2.0, s2.1, (b + 1) as u64, res.skip(1))
            },
        }
    }
}

/// The payload of the AckNackUnreliable frame for the merged ranges `res`, acknowledging from
/// `acked` to `ack_nack_below`: the deltas of the ranges, then the negative delta up to
/// `ack_nack_below`, the pending delta written last.
pub open spec fn ack_nack_payload(res: Seq<Result<(u64, u64), ()>>, acked: u64, ack_nack_below: u64) -> Seq<u8> {
    let f = ack_nack_fold(Seq::empty(), None, acked, res);
    let last = pn_step(f.0, f.1, false, (ack_nack_below - f.2) as u64);
    match last.1 {
        Some((_, q)) => last.0 + varint_bytes(q),
        None => last.0,
    }
}

/// Bookkeeping of which unreliable message numbers the receiver has acknowledged or negatively
/// acknowledged, and which are waiting for the timer.
pub struct ReceiverUnreliableAckManager {
    ack_nacked_below: u64,
    highest_seen_plus_1: u64,
    set_timer_ack_nack_below: Option<u64>,
    unacked_below_set_timer: VecAckRanges,
    unacked_not_below_set_timer: VecAckRanges,
}

impl ReceiverUnreliableAckManager {
    /// Every message number below this is acknowledged or negatively acknowledged.
    pub closed spec fn ack_nacked_below(&self) -> u64 {
        self.ack_nacked_below
    }

    /// One more than the highest message number known to be sent, or zero.
    pub closed spec fn highest_seen_plus_1(&self) -> u64 {
        self.highest_seen_plus_1
    }

    /// The bound the running timer will acknowledge up to, if the timer runs.
    pub closed spec fn timer(&self) -> Option<u64> {
        self.set_timer_ack_nack_below
    }

    /// Received numbers not yet acknowledged, below the timer's bound (all of them if no timer).
    pub closed spec fn below(&self) -> Seq<(u64, u64)> {
        self.unacked_below_set_timer.ranges()
    }

    /// Received numbers not yet acknowledged, at or above the timer's bound.
    pub closed spec fn not_below(&self) -> Seq<(u64, u64)> {
        self.unacked_not_below_set_timer.ranges()
    }

    /// The invariant: the waiting ranges are valid, at or above the acknowledged bound and below
    /// the highest seen; with a timer, those below its bound are below it and the others at or
    /// above it; without a timer, there are no others.
    pub open spec fn inv(&self) -> bool {
        &&& ranges_valid(self.below())
        &&& ranges_valid(self.not_below())
        &&& self.ack_nacked_below() <= self.highest_seen_plus_1()
        &&& match self.timer() {
            Some(t) => {
                &&& ranges_within(self.below(), self.ack_nacked_below() as int, t as int)
                &&& ranges_within(self.not_below(), t as int, self.highest_seen_plus_1() as int)
                &&& self.ack_nacked_below() <= t <= self.highest_seen_plus_1()
            },
            None => {
                &&& ranges_within(self.below(), self.ack_nacked_below() as int, self.highest_seen_plus_1() as int)
                &&& self.not_below().len() == 0
            },
        }
    }

    /// Construct with nothing seen.
    pub fn new() -> (r: Self)
        ensures
            r.inv(),
            r.ack_nacked_below() == 0,
            r.highest_seen_plus_1() == 0,
            r.timer() is None,
            r.below().len() == 0,
            r.not_below().len() == 0,
    {
        ReceiverUnreliableAckManager {
            ack_nacked_below: 0,
            highest_seen_plus_1: 0,
            set_timer_ack_nack_below: None,
            unacked_below_set_timer: VecAckRanges::new(),
            unacked_not_below_set_timer: VecAckRanges::new(),
        }
    }

    /// Start the timer, to acknowledge up to the highest number seen.
    fn start_timer(&mut self)
        requires
            old(self).timer() is None,
        ensures
            final(self).timer() == Some(old(self).highest_seen_plus_1()),
            final(self).ack_nacked_below() == old(self).ack_nacked_below(),
            final(self).highest_seen_plus_1() == old(self).highest_seen_plus_1(),
            final(self).below() == old(self).below(),
            final(self).not_below() == old(self).not_below(),
    {
        self.set_timer_ack_nack_below = Some(self.highest_seen_plus_1);
    }

    /// Mark message number `n` received, to be acknowledged later. Returns whether it must be
    /// ignored (it is below the acknowledged bound, so already negatively acknowledged), and
    /// whether to start the timer (none runs and the send stream exists).
    pub fn on_receive(&mut self, n: u64, send_stream_is_some: bool) -> (r: Result<(bool, bool), AckError>)
        requires
            old(self).inv(),
        ensures
            final(self).inv(),
            n < old(self).ack_nacked_below() ==> r == Ok::<(bool, bool), AckError>((true, false))
                && *final(self) == *old(self),
            n >= old(self).ack_nacked_below() && n == u64::MAX ==> r == Err::<(bool, bool), AckError>(
                AckError::MessageNumTooHigh,
            ) && *final(self) == *old(self),
            n >= old(self).ack_nacked_below() && n < u64::MAX ==> {
                &&& final(self).ack_nacked_below() == old(self).ack_nacked_below()
                &&& final(self).highest_seen_plus_1() == (if n + 1 > old(self).highest_seen_plus_1() {
                    (n + 1) as u64
                } else {
                    old(self).highest_seen_plus_1()
                })
                &&& match old(self).timer() {
                    Some(t) => r == Ok::<(bool, bool), AckError>((false, false)) && final(self).timer()
                        == Some(t) && if n < t {
                        ranges_set(final(self).below()) == ranges_set(old(self).below()).insert(n)
                            && final(self).not_below() == old(self).not_below()
                    } else {
                        ranges_set(final(self).not_below()) == ranges_set(old(self).not_below()).insert(n)
                            && final(self).below() == old(self).below()
                    },
                    None => r == Ok::<(bool, bool), AckError>((false, send_stream_is_some))
                        && ranges_set(final(self).below()) == ranges_set(old(self).below()).insert(n)
                        && final(self).timer() == (if send_stream_is_some {
                        Some(final(self).highest_seen_plus_1())
                    } else {
                        None
                    }),
                }
            },
    {
        if n < self.ack_nacked_below {
            return Ok((true, false));
        }
        let n_plus_1 = match n.checked_add(1) {
            Some(m) => m,
            None => {
                return Err(AckError::MessageNumTooHigh);
            },
        };
        if n_plus_1 > self.highest_seen_plus_1 {
            self.highest_seen_plus_1 = n_plus_1;
        }
        let ghost below0 = self.below();
        let ghost not_below0 = self.not_below();
        match self.set_timer_ack_nack_below {
            Some(stanb) => {
                if n < stanb {
                    self.unacked_below_set_timer.add_point(n);
                    proof {
                        lemma_within_add_point(below0, self.below(), n, self.ack_nacked_below as int, stanb as int);
                        lemma_within_widen(not_below0, stanb as int, old(self).highest_seen_plus_1 as int, self.highest_seen_plus_1 as int);
                    }
                } else {
                    self.unacked_not_below_set_timer.add_point(n);
                    proof {
                        lemma_within_add_point(not_below0, self.not_below(), n, stanb as int, self.highest_seen_plus_1 as int);
                    }
                }
                Ok((false, false))
            },
            None => {
                self.unacked_below_set_timer.add_point(n);
                proof {
                    lemma_within_add_point(below0, self.below(), n, self.ack_nacked_below as int, self.highest_seen_plus_1 as int);
                }
                if send_stream_is_some {
                    self.start_timer();
                    proof {
                        assert(self.not_below().len() == 0);
                    }
                }
                Ok((false, send_stream_is_some))
            },
        }
    }

    /// Mark message number `n` declared sent, so that it is acknowledged or negatively
    /// acknowledged in time. Returns whether to start the timer: none runs, something is left to
    /// acknowledge, and the send stream exists.
    pub fn on_declared(&mut self, n: u64, send_stream_is_some: bool) -> (r: Result<bool, AckError>)
        requires
            old(self).inv(),
        ensures
            final(self).inv(),
            n == u64::MAX ==> r == Err::<bool, AckError>(AckError::MessageNumTooHigh) && *final(self)
                == *old(self),
            n < u64::MAX ==> {
                let h = if n + 1 > old(self).highest_seen_plus_1() {
                    (n + 1) as u64
                } else {
                    old(self).highest_seen_plus_1()
                };
                let start = old(self).timer() is None && h > old(self).ack_nacked_below() && send_stream_is_some;
                &&& r == Ok::<bool, AckError>(start)
                &&& final(self).highest_seen_plus_1() == h
                &&& final(self).ack_nacked_below() == old(self).ack_nacked_below()
                &&& final(self).below() == old(self).below()
                &&& final(self).not_below() == old(self).not_below()
                &&& final(self).timer() == (if start { Some(h) } else { old(self).timer() })
            },
    {
        let n_plus_1 = match n.checked_add(1) {
            Some(m) => m,
            None => {
                return Err(AckError::MessageNumTooHigh);
            },
        };
        if n_plus_1 > self.highest_seen_plus_1 {
            self.highest_seen_plus_1 = n_plus_1;
        }
        proof {
            lemma_within_widen(self.below(), self.ack_nacked_below as int, old(self).highest_seen_plus_1 as int, self.highest_seen_plus_1 as int);
            lemma_within_widen(self.not_below(), 0, old(self).highest_seen_plus_1 as int, self.highest_seen_plus_1 as int);
            if let Some(t) = self.set_timer_ack_nack_below {
                lemma_within_widen(self.not_below(), t as int, old(self).highest_seen_plus_1 as int, self.highest_seen_plus_1 as int);
            }
        }
        if self.set_timer_ack_nack_below.is_none() && self.highest_seen_plus_1 > self.ack_nacked_below
            && send_stream_is_some {
            self.start_timer();
            return Ok(true);
        }
        Ok(false)
    }

    /// Call when the send stream comes into existence. Returns whether to start the timer:
    /// anything was ever seen.
    pub fn on_ctrl_stream_opened(&mut self) -> (r: bool)
        requires
            old(self).inv(),
            old(self).timer() is None,
        ensures
            final(self).inv(),
            r == (old(self).highest_seen_plus_1() > 0),
            final(self).timer() == (if r { Some(old(self).highest_seen_plus_1()) } else { None }),
            final(self).ack_nacked_below() == old(self).ack_nacked_below(),
            final(self).highest_seen_plus_1() == old(self).highest_seen_plus_1(),
            final(self).below() == old(self).below(),
            final(self).not_below() == old(self).not_below(),
    {
        if self.highest_seen_plus_1 > 0 {
            self.start_timer();
            true
        } else {
            false
        }
    }

    /// Handle the timer firing: acknowledge the received numbers below its bound and negatively
    /// acknowledge the rest below it, returning the AckNackUnreliable frame to send; then, if
    /// numbers at or above the bound were seen, move the waiting ones down and return that the
    /// timer is to start again. A number received twice is an error.
    pub fn on_timer_event(&mut self) -> (r: Result<(Vec<u8>, bool), AckError>)
        requires
            old(self).inv(),
            old(self).timer() matches Some(t) && t > old(self).ack_nacked_below(),
        ensures
            exists|sorted: Seq<(u64, u64)>|
                #![trigger merge_all(sorted)]
                sorted_by_start(sorted) && sorted.to_multiset() == old(self).below().to_multiset() && ({
                    let res = merge_all(sorted);
                    let t = old(self).timer().unwrap();
                    &&& !no_err(res) ==> r == Err::<(Vec<u8>, bool), AckError>(AckError::Overlap)
                    &&& no_err(res) ==> {
                        &&& r matches Ok((bytes, restart)) && bytes@ == seq![
                            FrameType::AckNackUnreliable.type_byte(),
                        ] + varbytes(ack_nack_payload(res, old(self).ack_nacked_below(), t))
                            && restart == (old(self).highest_seen_plus_1() > t)
                        &&& final(self).inv()
                        &&& final(self).ack_nacked_below() == t
                        &&& final(self).highest_seen_plus_1() == old(self).highest_seen_plus_1()
                        &&& if old(self).highest_seen_plus_1() > t {
                            &&& final(self).timer() == Some(old(self).highest_seen_plus_1())
                            &&& final(self).below() == old(self).not_below()
                            &&& final(self).not_below().len() == 0
                        } else {
                            &&& final(self).timer() is None
                            &&& final(self).below().len() == 0
                        }
                    }
                }),
    {
        let stanb = match self.set_timer_ack_nack_below.take() {
            Some(t) => t,
            None => 0,
        };
        let ghost acked0 = self.ack_nacked_below;
        let ghost below0 = self.below();
        let res = self.unacked_below_set_timer.sort_merge_drain();
        let ghost sorted = choose|sorted: Seq<(u64, u64)>|
            #![trigger merge_all(sorted)]
            sorted_by_start(sorted) && sorted.to_multiset() == below0.to_multiset() && res@ == merge_all(sorted);
        proof {
            lemma_within_permutation(below0, sorted, acked0 as int, stanb as int);
            crate::proto::ack_range::lemma_valid_permutation_pub(below0, sorted);
            lemma_merge_all_chain(sorted, acked0 as int, stanb as int);
        }
        let mut pnr = PosNegRanges::new();
        let mut i: usize = 0;
        let ghost mut lo: int = acked0 as int;
        assert(res@.skip(0) =~= res@);
        while i < res.len()
            invariant
                res@ == merge_all(sorted),
                sorted_by_start(sorted),
                sorted.to_multiset() == old(self).below().to_multiset(),
                old(self).timer() == Some(stanb),
                acked0 == old(self).ack_nacked_below(),
                i <= res@.len(),
                forall|k: int| 0 <= k < i ==> #[trigger] res@[k] is Ok,
                acked0 <= self.ack_nacked_below <= lo,
                lo <= stanb + 1,
                stanb > acked0,
                ok_chain(res@.skip(i as int), lo, stanb as int),
                ack_nack_fold(pnr.written(), pnr.pending(), self.ack_nacked_below, res@.skip(i as int))
                    == ack_nack_fold(Seq::empty(), None, acked0, res@),
                pnr.pending() matches Some((_, q)) ==> q <= self.ack_nacked_below - acked0,
                self.ack_nacked_below > acked0 ==> pnr.pending() is Some,
                pnr.pending() is None ==> pnr.written().len() == 0,
                self.ack_nacked_below < lo || i == 0,
                i == 0 ==> lo == acked0 && self.ack_nacked_below == acked0,
                self.set_timer_ack_nack_below is None,
                self.highest_seen_plus_1 == old(self).highest_seen_plus_1,
                self.unacked_not_below_set_timer == old(self).unacked_not_below_set_timer,
                self.unacked_below_set_timer.ranges().len() == 0,
            decreases res@.len() - i,
        {
            let item = res[i];
            proof {
                assert(res@.skip(i as int)[0] == res@[i as int]);
                assert(res@.skip(i as int).skip(1) =~= res@.skip(i + 1));
            }
            match item {
                Err(()) => {
                    proof {
                        assert(!(res@[i as int] is Ok));
                        assert(!no_err(merge_all(sorted)));
                    }
                    return Err(AckError::Overlap);
                },
                Ok((a, b)) => {
                    let acked = self.ack_nacked_below;
                    let ghost w0 = pnr.written();
                    let ghost p0 = pnr.pending();
                    pnr.neg_delta(a - acked);
                    pnr.pos_delta(b - a + 1);
                    self.ack_nacked_below = b + 1;
                    proof {
                        lo = b + 2;
                    }
                },
            }
            i = i + 1;
        }
        proof {
            assert(no_err(res@));
            assert(res@.skip(i as int) =~= Seq::<Result<(u64, u64), ()>>::empty());
        }
        let acked = self.ack_nacked_below;
        pnr.neg_delta(stanb - acked);
        self.ack_nacked_below = stanb;
        let mut w = Frames::new();
        w.ack_nack_unreliable(pnr);
        let bytes = w.into_bytes();
        assert(bytes@ =~= seq![FrameType::AckNackUnreliable.type_byte()] + varbytes(
            ack_nack_payload(res@, acked0, stanb),
        ));
        let restart = self.highest_seen_plus_1 > self.ack_nacked_below;
        proof {
            if !restart {
                let nb = self.not_below();
                if nb.len() > 0 {
                    assert(nb[0].0 <= nb[0].1);
                    assert(stanb <= nb[0].0);
                }
            }
        }
        if restart {
            std::mem::swap(&mut self.unacked_below_set_timer, &mut self.unacked_not_below_set_timer);
            self.start_timer();
        }
        proof {
            assert(self.inv());
            assert(sorted_by_start(sorted) && sorted.to_multiset() == old(self).below().to_multiset());
            assert(no_err(merge_all(sorted)));
        }
        Ok((bytes, restart))
    }
}

/// Adding a point within the bounds keeps ranges within them.
proof fn lemma_within_add_point(before: Seq<(u64, u64)>, after: Seq<(u64, u64)>, n: u64, lo: int, hi: int)
    requires
        ranges_within(before, lo, hi),
        lo <= n < hi,
        after == (if before.len() > 0 && before.last().1 + 1 == n {
            before.update(before.len() - 1, (before.last().0, n))
        } else {
            before.push((n, n))
        }),
    ensures
        ranges_within(after, lo, hi),
{
    assert forall|i: int| 0 <= i < after.len() implies lo <= #[trigger] after[i].0 && after[i].1 < hi by {
        if i < before.len() {
            if !(i == before.len() - 1 && before.len() > 0 && before.last().1 + 1 == n) {
                assert(after[i] == before[i]);
            }
        }
    }
}

/// Raising the upper bound keeps ranges within the bounds.
proof fn lemma_within_widen(s: Seq<(u64, u64)>, lo: int, hi: int, hi2: int)
    requires
        ranges_within(s, lo, hi),
        hi <= hi2,
    ensures
        ranges_within(s, lo, hi2),
{
}

} // verus!
