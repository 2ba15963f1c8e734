//! Decisions of the receiving side of a networked channel: which message numbers to acknowledge,
//! when to close, and the encoding of acknowledgements as deltas.
use super::range_set::{in_ranges, interval, ranges_set, ranges_wf, RangeSetU64};
use vstd::prelude::*;

verus! {

/// A frame from the remote side that breaks the protocol.
#[derive(Debug, Copy, Clone, PartialEq, Eq, Structural)]
pub enum ProtocolError {
    /// A SentUnreliable frame after a FinishSender frame for the same channel.
    SentUnreliableAfterFinish,
    /// The total of SentUnreliable counts overflowed.
    SentUnreliableCountOverflow,
    /// A FinishSender frame in duplicate.
    DuplicateFinishSender,
    /// A CancelSender frame in duplicate.
    DuplicateCancelSender,
    /// A reliable message number received in duplicate.
    DuplicateReliableMessage,
    /// A Message frame with the message number `u64::MAX`.
    MessageNumMax,
    /// A reliable message number at or beyond the number declared by FinishSender.
    ReliableMessageBeyondFinish,
    /// An unreliable message number at or beyond the total declared sent, after FinishSender.
    UnreliableMessageBeyondFinish,
    /// An unreliable message number received in duplicate.
    DuplicateUnreliableMessage,
    /// A frame for a channel ID that the local side creates but never created.
    ChannelNeverCreated,
    /// A Message frame on a channel that the local side sends on.
    MessageOnLocalSender,
    /// A channel attached to a message that the local side created.
    AttachedChannelCreatedLocally,
    /// A channel attached to more than one message.
    ChannelAttachedTwice,
}

/// What to do with an unreliable message that broke no rule.
#[derive(Debug, Copy, Clone, PartialEq, Eq, Structural)]
pub enum UnreliableMessageOutcome {
    /// Its number was already acknowledged or negatively acknowledged: ignore it.
    Ignore,
    /// Keep it; and start an acknowledgement task with this bound, if given.
    Accept(Option<u64>),
}

/// The (not-acked, acked) delta pairs for the sorted ranges `r`, starting after `base`: each gap
/// length minus one, then each range length minus one.
pub open spec fn gap_pairs(base: int, r: Seq<(u64, u64)>) -> Seq<u64>
    decreases r.len(),
{
    if r.len() == 0 {
        Seq::empty()
    } else {
        seq![(r[0].0 - base - 1) as u64, (r[0].1 - r[0].0) as u64] + gap_pairs(r[0].1 + 1, r.skip(1))
    }
}

/// The deltas acknowledging the sorted ranges `r` when everything below `acked_lt` is already
/// acknowledged: the length of the range at `acked_lt` (zero if none starts there), then the
/// (not-acked, acked) pairs of the rest.
pub open spec fn reliable_deltas(acked_lt: u64, r: Seq<(u64, u64)>) -> Seq<u64> {
    if r.len() > 0 && r[0].0 == acked_lt {
        seq![(r[0].1 + 1 - r[0].0) as u64] + gap_pairs(r[0].1 + 1, r.skip(1))
    } else {
        seq![0u64] + gap_pairs(acked_lt as int, r)
    }
}

/// The ranges left after deleting everything below `n` from the first of the sorted ranges `r`.
pub open spec fn after_delete_first(r: Seq<(u64, u64)>, n: u64) -> Seq<(u64, u64)> {
    if n <= r[0].1 {
        r.update(0, (n, r[0].1))
    } else {
        r.skip(1)
    }
}

/// The number of elements of the first of the sorted ranges `r` below `n`.
pub open spec fn deleted_count(r: Seq<(u64, u64)>, n: u64) -> int {
    (if n <= r[0].1 { n - 1 } else { r[0].1 as int }) - r[0].0 + 1
}

/// The alternating (not-acked, acked) deltas, each minus one, from `lt` up to `n`, for the sorted
/// received ranges `r`, ending with a lone not-acked delta when no received range remains below
/// `n`.
pub open spec fn ack_nack_from(r: Seq<(u64, u64)>, lt: u64, n: u64) -> Seq<u64>
    decreases r.len(), (if n > lt { n - lt } else { 0 }),
{
    if lt >= n {
        Seq::empty()
    } else if r.len() > 0 && r[0].0 < n && r[0].0 > lt && r[0].0 <= r[0].1 {
        let nack = r[0].0 - lt;
        let ack = deleted_count(r, n);
        let next = lt + nack + ack;
        if 0 <= next <= u64::MAX && next > lt {
            seq![(nack - 1) as u64, (ack - 1) as u64] + ack_nack_from(
                after_delete_first(r, n),
                next as u64,
                n,
            )
        } else {
            Seq::empty()
        }
    } else {
        seq![(n - lt - 1) as u64]
    }
}

/// The deltas acknowledging and negatively acknowledging everything from `lt` below `n`: the
/// length of the received range at `lt` (zero if none starts there), then the alternating deltas.
pub open spec fn ack_nack_deltas(r: Seq<(u64, u64)>, lt: u64, n: u64) -> Seq<u64> {
    if r.len() > 0 && r[0].0 == lt && lt < n {
        let a = deleted_count(r, n);
        seq![a as u64] + ack_nack_from(after_delete_first(r, n), (lt + a) as u64, n)
    } else {
        seq![0u64] + ack_nack_from(r, lt, n)
    }
}

/// The receiving side's state for one channel.
pub struct ReceiverState {
    /// Whether the message this channel was attached to has been received, or the channel is the
    /// entrypoint or was created locally.
    pub received_creating_message: bool,
    /// Reliable message numbers received and acknowledged.
    pub reliable_received_acked: RangeSetU64,
    /// Reliable message numbers received and not yet acknowledged.
    pub reliable_received_unacked: RangeSetU64,
    /// Every unreliable message number below this has been acknowledged or negatively
    /// acknowledged.
    pub unreliable_ack_nacked_lt: u64,
    /// Unreliable message numbers received and not yet acknowledged.
    pub unreliable_received_unacked: RangeSetU64,
    /// Sum of the counts of all SentUnreliable frames received.
    pub sent_unreliable_count_total: u64,
    /// The sent-reliable number of the FinishSender frame, once received.
    pub finished_sent_reliable: Option<u64>,
    /// Whether a CancelSender frame has been received.
    pub cancelled: bool,
}

impl ReceiverState {
    /// Well-formedness of the range sets.
    pub open spec fn wf(&self) -> bool {
        &&& self.reliable_received_acked.wf()
        &&& self.reliable_received_unacked.wf()
        &&& self.unreliable_received_unacked.wf()
    }

    /// Whether a reliable acknowledgement is due.
    pub open spec fn reliable_ack_due(&self) -> bool {
        self.reliable_received_unacked.ranges().len() > 0
    }

    /// Whether an unreliable acknowledgement is due.
    pub open spec fn unreliable_ack_nack_due(&self) -> bool {
        self.unreliable_received_unacked.ranges().len() > 0 || self.sent_unreliable_count_total
            > self.unreliable_ack_nacked_lt
    }

    /// The least reliable message number not yet acknowledged.
    pub open spec fn acked_below(&self) -> u64 {
        let r = self.reliable_received_acked.ranges();
        if r.len() > 0 && r[0].0 == 0 {
            (r[0].1 + 1) as u64
        } else {
            0
        }
    }

    /// The bound for an unreliable acknowledgement: the greater of the least number not received
    /// and the total declared sent.
    pub open spec fn ack_nack_bound(&self) -> u64 {
        let r = self.unreliable_received_unacked.ranges();
        let m = if r.len() > 0 && r[0].0 == 0 {
            (r[0].1 + 1) as u64
        } else {
            0u64
        };
        if m > self.sent_unreliable_count_total {
            m
        } else {
            self.sent_unreliable_count_total
        }
    }

    /// Whether the receiver should be closed: cancelled, or finished with every reliable message
    /// acknowledged and nothing left to acknowledge.
    pub open spec fn closed(&self) -> bool {
        self.cancelled || (self.finished_sent_reliable == Some(self.acked_below())
            && !self.reliable_ack_due() && !self.unreliable_ack_nack_due())
    }

    /// Construct the state of a new channel.
    pub fn new(received_creating_message: bool) -> (r: Self)
        ensures
            r.wf(),
            r.received_creating_message == received_creating_message,
            r.reliable_received_acked@ == Set::<u64>::empty(),
            r.reliable_received_unacked@ == Set::<u64>::empty(),
            r.unreliable_received_unacked@ == Set::<u64>::empty(),
            r.unreliable_ack_nacked_lt == 0,
            r.sent_unreliable_count_total == 0,
            r.finished_sent_reliable is None,
            !r.cancelled,
    {
        ReceiverState {
            received_creating_message,
            reliable_received_acked: RangeSetU64::new(),
            reliable_received_unacked: RangeSetU64::new(),
            unreliable_ack_nacked_lt: 0,
            unreliable_received_unacked: RangeSetU64::new(),
            sent_unreliable_count_total: 0,
            finished_sent_reliable: None,
            cancelled: false,
        }
    }

    /// Whether a reliable acknowledgement task should exist.
    pub fn reliable_ack_task_should_exist(&self) -> (r: bool)
        requires
            self.wf(),
        ensures
            r == self.reliable_ack_due(),
    {
        !self.reliable_received_unacked.is_empty()
    }

    /// Whether an unreliable acknowledgement task should exist.
    pub fn unreliable_ack_nack_task_should_exist(&self) -> (r: bool)
        requires
            self.wf(),
        ensures
            r == self.unreliable_ack_nack_due(),
    {
        !self.unreliable_received_unacked.is_empty()
            || self.sent_unreliable_count_total > self.unreliable_ack_nacked_lt
    }

    /// Whether the receiver should be closed.
    pub fn should_be_closed(&self) -> (r: bool)
        requires
            self.wf(),
        ensures
            r == self.closed(),
    {
        if self.cancelled {
            return true;
        }
        match self.finished_sent_reliable {
            Some(n) => n == self.reliable_received_acked.min_absent()
                && !self.reliable_ack_task_should_exist()
                && !self.unreliable_ack_nack_task_should_exist(),
            None => false,
        }
    }

    /// The bound below which the next unreliable acknowledgement covers every message number:
    /// the greater of the least number not received and the total declared sent.
    pub fn unreliable_ack_nack_lt(&self) -> (r: u64)
        requires
            self.wf(),
        ensures
            r == self.ack_nack_bound(),
            r >= self.sent_unreliable_count_total,
            !self.unreliable_received_unacked@.contains(r) || r == self.sent_unreliable_count_total,
    {
        let m = self.unreliable_received_unacked.min_absent();
        if m > self.sent_unreliable_count_total {
            m
        } else {
            self.sent_unreliable_count_total
        }
    }

    /// Handle a SentUnreliable frame declaring `count_minus_1 + 1` more unreliable messages sent.
    /// On success returns the bound for a new unreliable acknowledgement task, if one is to be
    /// started: when none was due before and one is due now.
    pub fn on_sent_unreliable(&mut self, count_minus_1: u64) -> (r: Result<Option<u64>, ProtocolError>)
        requires
            old(self).wf(),
        ensures
            final(self).wf(),
            old(self).finished_sent_reliable is Some ==> r == Err::<Option<u64>, ProtocolError>(
                ProtocolError::SentUnreliableAfterFinish,
            ) && *final(self) == *old(self),
            old(self).finished_sent_reliable is None && old(self).sent_unreliable_count_total
                + count_minus_1 + 1 >= u64::MAX ==> r == Err::<Option<u64>, ProtocolError>(
                ProtocolError::SentUnreliableCountOverflow,
            ) && *final(self) == *old(self),
            old(self).finished_sent_reliable is None && old(self).sent_unreliable_count_total
                + count_minus_1 + 1 < u64::MAX ==> {
                &&& final(self).sent_unreliable_count_total == old(self).sent_unreliable_count_total
                    + count_minus_1 + 1
                &&& final(self).unreliable_ack_nacked_lt == old(self).unreliable_ack_nacked_lt
                &&& final(self).unreliable_received_unacked == old(self).unreliable_received_unacked
                &&& final(self).reliable_received_acked == old(self).reliable_received_acked
                &&& final(self).reliable_received_unacked == old(self).reliable_received_unacked
                &&& final(self).finished_sent_reliable == old(self).finished_sent_reliable
                &&& final(self).cancelled == old(self).cancelled
                &&& (r matches Ok(spawn) && (spawn is Some <==> (!old(self).unreliable_ack_nack_due()
                    && final(self).unreliable_ack_nack_due())))
            },
    {
        if self.finished_sent_reliable.is_some() {
            return Err(ProtocolError::SentUnreliableAfterFinish);
        }
        let task_exists = self.unreliable_ack_nack_task_should_exist();
        let total = match self.sent_unreliable_count_total.checked_add(count_minus_1) {
            Some(t) => match t.checked_add(1) {
                Some(t2) => t2,
                None => {
                    return Err(ProtocolError::SentUnreliableCountOverflow);
                },
            },
            None => {
                return Err(ProtocolError::SentUnreliableCountOverflow);
            },
        };
        if total == u64::MAX {
            return Err(ProtocolError::SentUnreliableCountOverflow);
        }
        self.sent_unreliable_count_total = total;
        if !task_exists && self.unreliable_ack_nack_task_should_exist() {
            Ok(Some(self.unreliable_ack_nack_lt()))
        } else {
            Ok(None)
        }
    }

    /// Handle a reliable Message frame numbered `message_num`. On success returns whether an
    /// acknowledgement task is to be started (none was due before).
    pub fn on_reliable_message(&mut self, message_num: u64) -> (r: Result<bool, ProtocolError>)
        requires
            old(self).wf(),
        ensures
            final(self).wf(),
            message_num == u64::MAX ==> (r == Err::<bool, ProtocolError>(ProtocolError::MessageNumMax)
                && *final(self) == *old(self)),
            message_num < u64::MAX && (old(self).finished_sent_reliable matches Some(n) && message_num >= n)
                ==> (r == Err::<bool, ProtocolError>(ProtocolError::ReliableMessageBeyondFinish)
                && *final(self) == *old(self)),
            message_num < u64::MAX && !(old(self).finished_sent_reliable matches Some(n) && message_num >= n)
                && old(self).reliable_received_unacked@.contains(message_num) ==> (r == Err::<
                bool,
                ProtocolError,
            >(ProtocolError::DuplicateReliableMessage) && *final(self) == *old(self)),
            message_num < u64::MAX && !(old(self).finished_sent_reliable matches Some(n) && message_num >= n)
                && !old(self).reliable_received_unacked@.contains(message_num) ==> {
                &&& r == Ok::<bool, ProtocolError>(!old(self).reliable_ack_due())
                &&& final(self).reliable_received_unacked@ == old(self).reliable_received_unacked@.insert(message_num)
                &&& final(self).reliable_ack_due()
                &&& final(self).received_creating_message == old(self).received_creating_message
                &&& final(self).reliable_received_acked == old(self).reliable_received_acked
                &&& final(self).unreliable_ack_nacked_lt == old(self).unreliable_ack_nacked_lt
                &&& final(self).unreliable_received_unacked == old(self).unreliable_received_unacked
                &&& final(self).sent_unreliable_count_total == old(self).sent_unreliable_count_total
                &&& final(self).finished_sent_reliable == old(self).finished_sent_reliable
                &&& final(self).cancelled == old(self).cancelled
            },
    {
        if message_num == u64::MAX {
            return Err(ProtocolError::MessageNumMax);
        }
        match self.finished_sent_reliable {
            Some(n) => {
                if message_num >= n {
                    return Err(ProtocolError::ReliableMessageBeyondFinish);
                }
            },
            None => {},
        }
        if self.reliable_received_unacked.contains(message_num) {
            return Err(ProtocolError::DuplicateReliableMessage);
        }
        let task_exists = self.reliable_ack_task_should_exist();
        self.reliable_received_unacked.insert(message_num, message_num);
        proof {
            assert(interval(message_num as int, message_num as int) =~= set![message_num]);
            assert(old(self).reliable_received_unacked@.union(set![message_num])
                =~= old(self).reliable_received_unacked@.insert(message_num));
        }
        proof {
            assert(self.reliable_received_unacked@.contains(message_num));
        }
        Ok(!task_exists)
    }

    /// Handle an unreliable Message frame numbered `message_num`. On success returns whether to
    /// ignore the message (its number was already settled) or keep it, with the bound of an
    /// acknowledgement task to start if none was due before.
    pub fn on_unreliable_message(&mut self, message_num: u64) -> (r: Result<UnreliableMessageOutcome, ProtocolError>)
        requires
            old(self).wf(),
        ensures
            final(self).wf(),
            message_num == u64::MAX ==> (r == Err::<UnreliableMessageOutcome, ProtocolError>(
                ProtocolError::MessageNumMax,
            ) && *final(self) == *old(self)),
            message_num < u64::MAX && old(self).finished_sent_reliable is Some && message_num
                >= old(self).sent_unreliable_count_total ==> (r == Err::<UnreliableMessageOutcome, ProtocolError>(
                ProtocolError::UnreliableMessageBeyondFinish,
            ) && *final(self) == *old(self)),
            message_num < u64::MAX && !(old(self).finished_sent_reliable is Some && message_num
                >= old(self).sent_unreliable_count_total) && message_num < old(self).unreliable_ack_nacked_lt
                ==> (r == Ok::<UnreliableMessageOutcome, ProtocolError>(UnreliableMessageOutcome::Ignore)
                && *final(self) == *old(self)),
            message_num < u64::MAX && !(old(self).finished_sent_reliable is Some && message_num
                >= old(self).sent_unreliable_count_total) && message_num >= old(self).unreliable_ack_nacked_lt
                && old(self).unreliable_received_unacked@.contains(message_num) ==> (r == Err::<
                UnreliableMessageOutcome,
                ProtocolError,
            >(ProtocolError::DuplicateUnreliableMessage) && *final(self) == *old(self)),
            message_num < u64::MAX && !(old(self).finished_sent_reliable is Some && message_num
                >= old(self).sent_unreliable_count_total) && message_num >= old(self).unreliable_ack_nacked_lt
                && !old(self).unreliable_received_unacked@.contains(message_num) ==> {
                &&& final(self).unreliable_received_unacked@ == old(self).unreliable_received_unacked@.insert(message_num)
                &&& final(self).unreliable_ack_nack_due()
                &&& r == Ok::<UnreliableMessageOutcome, ProtocolError>(UnreliableMessageOutcome::Accept(
                    if old(self).unreliable_ack_nack_due() {
                        None
                    } else {
                        Some(final(self).ack_nack_bound())
                    },
                ))
                &&& final(self).received_creating_message == old(self).received_creating_message
                &&& final(self).reliable_received_acked == old(self).reliable_received_acked
                &&& final(self).reliable_received_unacked == old(self).reliable_received_unacked
                &&& final(self).unreliable_ack_nacked_lt == old(self).unreliable_ack_nacked_lt
                &&& final(self).sent_unreliable_count_total == old(self).sent_unreliable_count_total
                &&& final(self).finished_sent_reliable == old(self).finished_sent_reliable
                &&& final(self).cancelled == old(self).cancelled
            },
    {
        if message_num == u64::MAX {
            return Err(ProtocolError::MessageNumMax);
        }
        if self.finished_sent_reliable.is_some() && message_num >= self.sent_unreliable_count_total {
            return Err(ProtocolError::UnreliableMessageBeyondFinish);
        }
        if message_num < self.unreliable_ack_nacked_lt {
            return Ok(UnreliableMessageOutcome::Ignore);
        }
        if self.unreliable_received_unacked.contains(message_num) {
            return Err(ProtocolError::DuplicateUnreliableMessage);
        }
        let task_exists = self.unreliable_ack_nack_task_should_exist();
        self.unreliable_received_unacked.insert(message_num, message_num);
        proof {
            assert(interval(message_num as int, message_num as int) =~= set![message_num]);
            assert(old(self).unreliable_received_unacked@.union(set![message_num])
                =~= old(self).unreliable_received_unacked@.insert(message_num));
        }
        proof {
            assert(self.unreliable_received_unacked@.contains(message_num));
        }
        if task_exists {
            Ok(UnreliableMessageOutcome::Accept(None))
        } else {
            Ok(UnreliableMessageOutcome::Accept(Some(self.unreliable_ack_nack_lt())))
        }
    }

    /// Handle a FinishSender frame; on success returns whether the receiver is to be closed now
    /// (it was not closed before and is now).
    pub fn on_finish_sender(&mut self, sent_reliable: u64) -> (r: Result<bool, ProtocolError>)
        requires
            old(self).wf(),
        ensures
            final(self).wf(),
            old(self).finished_sent_reliable is Some ==> r == Err::<bool, ProtocolError>(
                ProtocolError::DuplicateFinishSender,
            ) && *final(self) == *old(self),
            old(self).finished_sent_reliable is None ==> final(self).finished_sent_reliable == Some(
                sent_reliable,
            ) && r == Ok::<bool, ProtocolError>(!old(self).closed() && final(self).closed())
                && final(self).cancelled == old(self).cancelled
                && final(self).reliable_received_acked == old(self).reliable_received_acked
                && final(self).reliable_received_unacked == old(self).reliable_received_unacked
                && final(self).unreliable_received_unacked == old(self).unreliable_received_unacked
                && final(self).unreliable_ack_nacked_lt == old(self).unreliable_ack_nacked_lt
                && final(self).sent_unreliable_count_total == old(self).sent_unreliable_count_total,
    {
        if self.finished_sent_reliable.is_some() {
            return Err(ProtocolError::DuplicateFinishSender);
        }
        let already_closed = self.should_be_closed();
        self.finished_sent_reliable = Some(sent_reliable);
        Ok(!already_closed && self.should_be_closed())
    }

    /// Handle a CancelSender frame; on success returns whether the receiver is to be closed now
    /// (it was not closed before).
    pub fn on_cancel_sender(&mut self) -> (r: Result<bool, ProtocolError>)
        requires
            old(self).wf(),
        ensures
            final(self).wf(),
            old(self).cancelled ==> r == Err::<bool, ProtocolError>(ProtocolError::DuplicateCancelSender)
                && *final(self) == *old(self),
            !old(self).cancelled ==> final(self).cancelled && final(self).closed() && r == Ok::<
                bool,
                ProtocolError,
            >(!old(self).closed()) && final(self).finished_sent_reliable == old(self).finished_sent_reliable
                && final(self).reliable_received_acked == old(self).reliable_received_acked
                && final(self).reliable_received_unacked == old(self).reliable_received_unacked
                && final(self).unreliable_received_unacked == old(self).unreliable_received_unacked,
    {
        if self.cancelled {
            return Err(ProtocolError::DuplicateCancelSender);
        }
        let already_closed = self.should_be_closed();
        self.cancelled = true;
        Ok(!already_closed)
    }
}

impl ReceiverState {
    /// Acknowledge the received reliable messages: unless cancelled, mark them all acknowledged
    /// and return the deltas that encode them, relative to the least number not acknowledged
    /// before, with whether the receiver is now to be closed. A message number received in
    /// duplicate (already acknowledged) is an error, and then nothing changes.
    pub fn reliable_ack(&mut self) -> (r: Result<Option<(Vec<u64>, bool)>, ProtocolError>)
        requires
            old(self).wf(),
        ensures
            final(self).wf(),
            old(self).cancelled ==> r == Ok::<Option<(Vec<u64>, bool)>, ProtocolError>(None)
                && *final(self) == *old(self),
            !old(self).cancelled && !old(self).reliable_received_acked@.intersect(
                old(self).reliable_received_unacked@,
            ).is_empty() ==> r == Err::<Option<(Vec<u64>, bool)>, ProtocolError>(
                ProtocolError::DuplicateReliableMessage,
            ) && *final(self) == *old(self),
            !old(self).cancelled && old(self).reliable_received_acked@.intersect(
                old(self).reliable_received_unacked@,
            ).is_empty() ==> {
                &&& r matches Ok(Some((d, close))) && d@ == reliable_deltas(
                    old(self).acked_below(),
                    old(self).reliable_received_unacked.ranges(),
                ) && close == final(self).closed()
                &&& final(self).reliable_received_acked@ == old(self).reliable_received_acked@.union(
                    old(self).reliable_received_unacked@,
                )
                &&& final(self).reliable_received_unacked@ == Set::<u64>::empty()
                &&& final(self).unreliable_received_unacked == old(self).unreliable_received_unacked
                &&& final(self).unreliable_ack_nacked_lt == old(self).unreliable_ack_nacked_lt
                &&& final(self).sent_unreliable_count_total == old(self).sent_unreliable_count_total
                &&& final(self).finished_sent_reliable == old(self).finished_sent_reliable
                &&& final(self).cancelled == old(self).cancelled
            },
    {
        if self.cancelled {
            return Ok(None);
        }
        let acked_lt = self.reliable_received_acked.min_absent();
        let r = self.reliable_received_unacked.iter();
        let ghost rs = r@;
        let ghost acked0 = self.reliable_received_acked@;
        let ghost unacked0 = self.reliable_received_unacked@;
        proof {
            assert(rs == self.reliable_received_unacked.ranges());
            assert(ranges_wf(rs));
        }
        // detect duplicates before changing anything
        let mut i: usize = 0;
        while i < r.len()
            invariant
                rs == r@,
                ranges_wf(rs),
                i <= rs.len(),
                *self == *old(self),
                !old(self).cancelled,
                rs == old(self).reliable_received_unacked.ranges(),
                acked0 == old(self).reliable_received_acked@,
                self.wf(),
                unacked0 == ranges_set(rs),
                self.reliable_received_acked@ == acked0,
                forall|k: int| 0 <= k < i ==> (#[trigger] acked0.intersect(interval(rs[k].0 as int, rs[k].1 as int))).is_empty(),
            decreases rs.len() - i,
        {
            let (s, e) = r[i];
            assert(rs[i as int].0 <= rs[i as int].1);
            if self.reliable_received_acked.intersects(s, e) {
                proof {
                    let x = choose|x: u64| acked0.intersect(interval(s as int, e as int)).contains(x);
                    assert(in_ranges(rs, x as int));
                    assert(ranges_set(rs).contains(x));
                    assert(acked0.intersect(unacked0).contains(x));
                }
                return Err(ProtocolError::DuplicateReliableMessage);
            }
            i = i + 1;
        }
        proof {
            assert forall|x: u64| !#[trigger] acked0.intersect(unacked0).contains(x) by {
                if acked0.contains(x) && in_ranges(rs, x as int) {
                    let k = choose|k: int| 0 <= k < rs.len() && #[trigger] rs[k].0 <= x <= rs[k].1;
                    assert(acked0.intersect(interval(rs[k].0 as int, rs[k].1 as int)).contains(x));
                }
            }
            assert(acked0.intersect(unacked0) =~= Set::<u64>::empty());
        }
        // mark all as acked
        let mut j: usize = 0;
        while j < r.len()
            invariant
                rs == r@,
                ranges_wf(rs),
                j <= rs.len(),
                self.reliable_received_acked.wf(),
                self.reliable_received_unacked == old(self).reliable_received_unacked,
                self.unreliable_received_unacked == old(self).unreliable_received_unacked,
                self.unreliable_ack_nacked_lt == old(self).unreliable_ack_nacked_lt,
                self.sent_unreliable_count_total == old(self).sent_unreliable_count_total,
                self.finished_sent_reliable == old(self).finished_sent_reliable,
                self.cancelled == old(self).cancelled,
                self.received_creating_message == old(self).received_creating_message,
                self.reliable_received_acked@ == acked0.union(ranges_set(rs.take(j as int))),
            decreases rs.len() - j,
        {
            let (s, e) = r[j];
            assert(rs[j as int].0 <= rs[j as int].1 && rs[j as int].1 < u64::MAX);
            let _ = self.reliable_received_acked.insert(s, e);
            proof {
                assert forall|x: u64| #[trigger] ranges_set(rs.take(j + 1)).contains(x) <==> (ranges_set(rs.take(j as int)).contains(x) || interval(s as int, e as int).contains(x)) by {
                    let a = rs.take(j + 1);
                    let b = rs.take(j as int);
                    if in_ranges(a, x as int) {
                        let k = choose|k: int| 0 <= k < a.len() && #[trigger] a[k].0 <= x <= a[k].1;
                        if k < j {
                            assert(b[k] == a[k]);
                        }
                    }
                    if in_ranges(b, x as int) {
                        let k = choose|k: int| 0 <= k < b.len() && #[trigger] b[k].0 <= x <= b[k].1;
                        assert(a[k] == b[k]);
                    }
                    if s <= x <= e {
                        assert(a[j as int] == rs[j as int]);
                    }
                }
                assert(self.reliable_received_acked@ =~= acked0.union(ranges_set(rs.take(j + 1))));
            }
            j = j + 1;
        }
        proof {
            assert(rs.take(j as int) =~= rs);
        }
        // form deltas
        let mut deltas: Vec<u64> = Vec::new();
        let mut k: usize = 0;
        let mut base: u64 = acked_lt;
        if r.len() > 0 && r[0].0 == acked_lt {
            assert(rs[0].0 <= rs[0].1 && rs[0].1 < u64::MAX);
            deltas.push(r[0].1 + 1 - r[0].0);
            base = r[0].1 + 1;
            k = 1;
            proof {
                assert forall|q: int| 1 <= q < rs.len() implies #[trigger] rs[q].0 > base by {
                    assert(rs[0].1 + 1 < rs[q].0);
                }
            }
        } else {
            deltas.push(0);
            proof {
                assert forall|q: int| 0 <= q < rs.len() implies #[trigger] rs[q].0 > base by {
                    // rs[q] is not acknowledged, and everything below acked_lt is
                    assert(rs[q].0 <= rs[q].1);
                    assert(in_ranges(rs, rs[q].0 as int));
                    assert(unacked0.contains(rs[q].0));
                    if rs[q].0 < acked_lt {
                        assert(acked0.contains(rs[q].0));
                        assert(acked0.intersect(unacked0).contains(rs[q].0));
                    }
                    if q > 0 {
                        assert(rs[0].0 <= rs[q].0);
                        assert(in_ranges(rs, rs[0].0 as int));
                        assert(unacked0.contains(rs[0].0));
                        if rs[0].0 < acked_lt {
                            assert(acked0.contains(rs[0].0));
                            assert(acked0.intersect(unacked0).contains(rs[0].0));
                        }
                    }
                }
            }
        }
        proof {
            assert(rs.skip(k as int) == (if k == 1 { rs.skip(1) } else { rs }));
            if k == 0 {
                assert(rs.skip(0) =~= rs);
            }
            assert(deltas@ + gap_pairs(base as int, rs.skip(k as int)) =~= reliable_deltas(acked_lt, rs));
        }
        while k < r.len()
            invariant
                rs == r@,
                ranges_wf(rs),
                k <= rs.len(),
                forall|q: int| k <= q < rs.len() ==> #[trigger] rs[q].0 > base,
                deltas@ + gap_pairs(base as int, rs.skip(k as int)) == reliable_deltas(acked_lt, rs),
            decreases rs.len() - k,
        {
            let (s, e) = r[k];
            assert(rs[k as int].0 <= rs[k as int].1 && rs[k as int].1 < u64::MAX);
            assert(s > base);
            let ghost d0 = deltas@;
            let ghost b0 = base;
            deltas.push(s - base - 1);
            deltas.push(e - s);
            base = e + 1;
            proof {
                assert(rs.skip(k as int).skip(1) =~= rs.skip(k + 1));
                assert(rs.skip(k as int)[0] == rs[k as int]);
                assert(deltas@ =~= d0 + seq![(s - b0 - 1) as u64, (e - s) as u64]);
                assert forall|q: int| k + 1 <= q < rs.len() implies #[trigger] rs[q].0 > base by {
                    assert(rs[k as int].1 + 1 < rs[q].0);
                }
            }
            k = k + 1;
        }
        proof {
            assert(rs.skip(k as int) =~= Seq::<(u64, u64)>::empty());
            assert(deltas@ =~= deltas@ + gap_pairs(base as int, rs.skip(k as int)));
        }
        self.reliable_received_unacked.clear();
        let close = self.should_be_closed();
        Ok(Some((deltas, close)))
    }
}

impl ReceiverState {
    /// Acknowledge and negatively acknowledge every unreliable message number below
    /// `ack_nack_lt`: unless cancelled, drop those received from the unacknowledged set, move the
    /// bound up to `ack_nack_lt`, and return the deltas that encode which were received, the bound
    /// for a new acknowledgement task if one is still due, and whether the receiver is now to be
    /// closed.
    pub fn unreliable_ack_nack(&mut self, ack_nack_lt: u64) -> (r: Option<(Vec<u64>, Option<u64>, bool)>)
        requires
            old(self).wf(),
            forall|x: u64| #[trigger] old(self).unreliable_received_unacked@.contains(x) ==> x
                >= old(self).unreliable_ack_nacked_lt,
            old(self).unreliable_received_unacked@.contains(old(self).unreliable_ack_nacked_lt)
                ==> old(self).unreliable_ack_nacked_lt < ack_nack_lt,
        ensures
            final(self).wf(),
            old(self).cancelled ==> r is None && *final(self) == *old(self),
            !old(self).cancelled ==> {
                &&& r matches Some((d, respawn, close)) && d@ == ack_nack_deltas(
                    old(self).unreliable_received_unacked.ranges(),
                    old(self).unreliable_ack_nacked_lt,
                    ack_nack_lt,
                ) && close == final(self).closed() && (respawn is Some
                    <==> final(self).unreliable_ack_nack_due())
                &&& final(self).unreliable_ack_nacked_lt == (if ack_nack_lt
                    > old(self).unreliable_ack_nacked_lt {
                    ack_nack_lt
                } else {
                    old(self).unreliable_ack_nacked_lt
                })
                &&& final(self).unreliable_received_unacked@ == old(self).unreliable_received_unacked@.filter(
                    |x: u64| x >= ack_nack_lt,
                )
                &&& final(self).reliable_received_acked == old(self).reliable_received_acked
                &&& final(self).reliable_received_unacked == old(self).reliable_received_unacked
                &&& final(self).sent_unreliable_count_total == old(self).sent_unreliable_count_total
                &&& final(self).finished_sent_reliable == old(self).finished_sent_reliable
                &&& final(self).cancelled == old(self).cancelled
            },
    {
        if self.cancelled {
            return None;
        }
        let n = ack_nack_lt;
        let ghost r0 = self.unreliable_received_unacked.ranges();
        let ghost lt0 = self.unreliable_ack_nacked_lt;
        let ghost set0 = self.unreliable_received_unacked@;
        let mut deltas: Vec<u64> = Vec::new();
        proof {
            self.unreliable_received_unacked.lemma_first_range();
        }
        let mut first_ack: u64 = 0;
        if let Some(e) = self.unreliable_received_unacked.first_range_entry() {
            if e.start() == self.unreliable_ack_nacked_lt {
                proof {
                    assert(set0.contains(e.start));
                }
                first_ack = e.delete_lt(&mut self.unreliable_received_unacked, n);
            }
        }
        deltas.push(first_ack);
        self.unreliable_ack_nacked_lt = self.unreliable_ack_nacked_lt + first_ack;
        proof {
            let s = self.unreliable_received_unacked@;
            let lt = self.unreliable_ack_nacked_lt;
            if first_ack > 0 {
                // the first range started at lt0 and its part below n is gone
                assert(r0[0].0 == lt0);
                assert forall|x: u64| #[trigger] s.contains(x) implies x >= lt by {
                    assert(set0.contains(x));
                    if x < lt {
                        assert(lt0 <= x);
                    }
                }
                if lt < n {
                    assert(!s.contains(lt)) by {
                        assert(lt == r0[0].1 + 1);
                        assert(!set0.contains(lt));
                    }
                }
                assert(s =~= set0.filter(|x: u64| x >= lt));
            } else {
                if r0.len() > 0 && r0[0].0 == lt0 {
                    assert(set0.contains(lt0));
                }
                assert(!set0.contains(lt0)) by {
                    if set0.contains(lt0) {
                        assert(r0.len() > 0);
                        assert(r0[0].0 <= lt0);
                        assert(set0.contains(r0[0].0));
                    }
                }
                assert(s =~= set0.filter(|x: u64| x >= lt));
            }
            assert(deltas@ + ack_nack_from(self.unreliable_received_unacked.ranges(), lt, n)
                =~= ack_nack_deltas(r0, lt0, n));
        }
        while self.unreliable_ack_nacked_lt < n
            invariant
                self.wf(),
                !self.cancelled,
                self.cancelled == old(self).cancelled,
                self.reliable_received_acked == old(self).reliable_received_acked,
                self.reliable_received_unacked == old(self).reliable_received_unacked,
                self.sent_unreliable_count_total == old(self).sent_unreliable_count_total,
                self.finished_sent_reliable == old(self).finished_sent_reliable,
                self.received_creating_message == old(self).received_creating_message,
                lt0 <= self.unreliable_ack_nacked_lt,
                lt0 < n ==> self.unreliable_ack_nacked_lt <= n,
                lt0 >= n ==> self.unreliable_ack_nacked_lt == lt0,
                forall|x: u64| #[trigger] self.unreliable_received_unacked@.contains(x) ==> x
                    >= self.unreliable_ack_nacked_lt,
                self.unreliable_ack_nacked_lt < n ==> !self.unreliable_received_unacked@.contains(
                    self.unreliable_ack_nacked_lt,
                ),
                self.unreliable_received_unacked@ == set0.filter(
                    |x: u64| x >= self.unreliable_ack_nacked_lt,
                ),
                deltas@ + ack_nack_from(
                    self.unreliable_received_unacked.ranges(),
                    self.unreliable_ack_nacked_lt,
                    n,
                ) == ack_nack_deltas(r0, lt0, n),
            decreases n - self.unreliable_ack_nacked_lt,
        {
            let lt = self.unreliable_ack_nacked_lt;
            let ghost rs = self.unreliable_received_unacked.ranges();
            let ghost d0 = deltas@;
            proof {
                self.unreliable_received_unacked.lemma_first_range();
            }
            let entry = self.unreliable_received_unacked.first_range_entry();
            let mut handled = false;
            if let Some(e) = entry {
                if e.start() < n {
                    proof {
                        assert(self.unreliable_received_unacked@.contains(e.start));
                        assert(e.start > lt);
                        assert(rs[0].0 <= rs[0].1);
                    }
                    let start = e.start();
                    let curr_nack = start - lt;
                    let ghost s_before = self.unreliable_received_unacked@;
                    let curr_ack = e.delete_lt(&mut self.unreliable_received_unacked, n);
                    deltas.push(curr_nack - 1);
                    deltas.push(curr_ack - 1);
                    self.unreliable_ack_nacked_lt = lt + curr_nack + curr_ack;
                    handled = true;
                    proof {
                        let s = self.unreliable_received_unacked@;
                        let lt2 = self.unreliable_ack_nacked_lt;
                        assert(deltas@ =~= d0 + seq![(curr_nack - 1) as u64, (curr_ack - 1) as u64]);
                        assert forall|x: u64| #[trigger] s.contains(x) implies x >= lt2 by {
                            assert(s_before.contains(x));
                        }
                        if lt2 < n {
                            assert(lt2 == rs[0].1 + 1);
                            assert(!s_before.contains(lt2)) by {
                                let sub = self.unreliable_received_unacked;
                                if s_before.contains(lt2) {
                                    assert(in_ranges(rs, lt2 as int));
                                    let k = choose|k: int| 0 <= k < rs.len() && #[trigger] rs[k].0 <= lt2 <= rs[k].1;
                                    if k > 0 {
                                        assert(rs[0].1 + 1 < rs[k].0);
                                    }
                                }
                            }
                        }
                        assert(s =~= set0.filter(|x: u64| x >= lt2));
                    }
                }
            }
            if !handled {
                let curr_nack = n - lt;
                deltas.push(curr_nack - 1);
                self.unreliable_ack_nacked_lt = n;
                proof {
                    assert(deltas@ =~= d0 + seq![(curr_nack - 1) as u64]);
                    assert forall|x: u64| #[trigger] self.unreliable_received_unacked@.contains(x) implies x >= n by {
                        if x < n {
                            assert(rs.len() > 0);
                            assert(rs[0].0 >= n);
                            assert(x >= rs[0].0);
                        }
                    }
                    assert(self.unreliable_received_unacked@ =~= set0.filter(|x: u64| x >= n));
                }
            }
        }
        proof {
            let lt = self.unreliable_ack_nacked_lt;
            assert(deltas@ =~= deltas@ + ack_nack_from(self.unreliable_received_unacked.ranges(), lt, n));
            assert(self.unreliable_received_unacked@ =~= set0.filter(|x: u64| x >= n)) by {
                assert forall|x: u64| #[trigger] set0.contains(x) implies (x >= lt <==> x >= n) by {
                    if set0.contains(x) {
                        assert(x >= lt0);
                    }
                }
            }
        }
        let respawn = if self.unreliable_ack_nack_task_should_exist() {
            Some(self.unreliable_ack_nack_lt())
        } else {
            None
        };
        let close = self.should_be_closed();
        Some((deltas, respawn, close))
    }
}

} // verus!