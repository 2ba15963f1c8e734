//! Message numbering on the sending side of a networked channel: ordered channels number all
//! messages in one sequence; unordered ones number reliable and unreliable messages apart, and
//! announce how many unreliable messages went out as datagrams.
use super::receiver::ReceiverState;
use vstd::prelude::*;

verus! {

/// Counters of unreliable messages: the next number to use, and the total announced so far by
/// SentUnreliable frames.
#[derive(Debug, Copy, Clone, PartialEq, Eq, Structural)]
pub struct UnreliableCounters {
    pub next_unreliable_message_num: u64,
    pub sent_unreliable_count_total: u64,
}

impl UnreliableCounters {
    /// Nothing is announced beyond what was sent.
    pub open spec fn wf(&self) -> bool {
        self.sent_unreliable_count_total <= self.next_unreliable_message_num
    }

    /// No message sent and none announced.
    pub fn new() -> (r: Self)
        ensures
            r.wf(),
            r.next_unreliable_message_num == 0,
            r.sent_unreliable_count_total == 0,
    {
        UnreliableCounters { next_unreliable_message_num: 0, sent_unreliable_count_total: 0 }
    }

    /// Record that the message numbered `next_unreliable_message_num` went out as a datagram.
    /// Returns whether an announcement is to be scheduled: when none was pending, that is when
    /// every earlier message had been announced.
    pub fn on_sent_datagram(&mut self) -> (schedule: bool)
        requires
            old(self).wf(),
            old(self).next_unreliable_message_num < u64::MAX,
        ensures
            final(self).wf(),
            schedule == (old(self).next_unreliable_message_num == old(self).sent_unreliable_count_total),
            final(self).next_unreliable_message_num == old(self).next_unreliable_message_num + 1,
            final(self).sent_unreliable_count_total == old(self).sent_unreliable_count_total,
    {
        let schedule = self.next_unreliable_message_num == self.sent_unreliable_count_total;
        self.next_unreliable_message_num = self.next_unreliable_message_num + 1;
        schedule
    }

    /// Announce the messages sent since the last announcement: returns the count minus one that
    /// the SentUnreliable frame carries, and counts them as announced.
    pub fn announce(&mut self) -> (count_minus_1: u64)
        requires
            old(self).wf(),
            old(self).next_unreliable_message_num > old(self).sent_unreliable_count_total,
        ensures
            final(self).wf(),
            count_minus_1 == old(self).next_unreliable_message_num - old(self).sent_unreliable_count_total - 1,
            final(self).sent_unreliable_count_total == old(self).next_unreliable_message_num,
            final(self).next_unreliable_message_num == old(self).next_unreliable_message_num,
    {
        let count_minus_1 = self.next_unreliable_message_num - self.sent_unreliable_count_total - 1;
        self.sent_unreliable_count_total = self.next_unreliable_message_num;
        count_minus_1
    }
}

/// How the messages of a channel are numbered, by its delivery guarantees.
#[derive(Debug, Copy, Clone, PartialEq, Eq, Structural)]
pub enum MessageNumbering {
    /// Ordered delivery: one sequence, on one stream.
    Ordered { next_message_num: u64 },
    /// Unordered delivery: reliable messages numbered apart from unreliable ones, if any.
    NotOrdered { next_reliable_message_num: u64, unreliable: Option<UnreliableCounters> },
}

/// The delivery guarantees of a channel whose messages are numbered.
#[derive(Debug, Copy, Clone, PartialEq, Eq, Structural)]
pub enum Guarantees {
    Ordered,
    Unordered,
    Unreliable,
}

impl MessageNumbering {
    /// The counters are consistent.
    pub open spec fn wf(&self) -> bool {
        match *self {
            MessageNumbering::NotOrdered { unreliable: Some(u), .. } => u.wf(),
            _ => true,
        }
    }

    /// Numbering for a channel with the given guarantees, starting at zero.
    pub fn new(guarantees: Guarantees) -> (r: Self)
        ensures
            r.wf(),
            r == (match guarantees {
                Guarantees::Ordered => MessageNumbering::Ordered { next_message_num: 0 },
                Guarantees::Unordered => MessageNumbering::NotOrdered {
                    next_reliable_message_num: 0,
                    unreliable: None,
                },
                Guarantees::Unreliable => MessageNumbering::NotOrdered {
                    next_reliable_message_num: 0,
                    unreliable: Some(UnreliableCounters {
                        next_unreliable_message_num: 0,
                        sent_unreliable_count_total: 0,
                    }),
                },
            }),
    {
        match guarantees {
            Guarantees::Ordered => MessageNumbering::Ordered { next_message_num: 0 },
            Guarantees::Unordered => MessageNumbering::NotOrdered {
                next_reliable_message_num: 0,
                unreliable: None,
            },
            Guarantees::Unreliable => MessageNumbering::NotOrdered {
                next_reliable_message_num: 0,
                unreliable: Some(UnreliableCounters::new()),
            },
        }
    }

    /// Take the number of a message sent reliably (on the ordered stream, or on a stream of its
    /// own), and advance past it.
    pub fn take_reliable(&mut self) -> (n: u64)
        requires
            old(self).wf(),
            match *old(self) {
                MessageNumbering::Ordered { next_message_num } => next_message_num < u64::MAX,
                MessageNumbering::NotOrdered { next_reliable_message_num, .. } => next_reliable_message_num
                    < u64::MAX,
            },
        ensures
            final(self).wf(),
            match *old(self) {
                MessageNumbering::Ordered { next_message_num } => n == next_message_num
                    && *final(self) == MessageNumbering::Ordered { next_message_num: (next_message_num + 1) as u64 },
                MessageNumbering::NotOrdered { next_reliable_message_num, unreliable } => n
                    == next_reliable_message_num && *final(self) == MessageNumbering::NotOrdered {
                    next_reliable_message_num: (next_reliable_message_num + 1) as u64,
                    unreliable,
                },
            },
    {
        match self {
            MessageNumbering::Ordered { next_message_num } => {
                let n = *next_message_num;
                *next_message_num = n + 1;
                n
            },
            MessageNumbering::NotOrdered { next_reliable_message_num, .. } => {
                let n = *next_reliable_message_num;
                *next_reliable_message_num = n + 1;
                n
            },
        }
    }
}

/// When the receiver has counted as declared sent exactly what the sender had announced, then
/// after the sender announces what it sent since and the receiver handles that SentUnreliable
/// frame without error, the receiver's declared total is the number of unreliable messages the
/// sender sent.
pub proof fn lemma_announce_matches_receiver(
    before: UnreliableCounters,
    after: UnreliableCounters,
    count_minus_1: u64,
    r_before: ReceiverState,
    r_after: ReceiverState,
)
    requires
        before.wf(),
        before.next_unreliable_message_num > before.sent_unreliable_count_total,
        count_minus_1 == before.next_unreliable_message_num - before.sent_unreliable_count_total - 1,
        after.sent_unreliable_count_total == before.next_unreliable_message_num,
        r_before.sent_unreliable_count_total == before.sent_unreliable_count_total,
        r_after.sent_unreliable_count_total == r_before.sent_unreliable_count_total + count_minus_1 + 1,
    ensures
        r_after.sent_unreliable_count_total == after.sent_unreliable_count_total,
        after.sent_unreliable_count_total == before.next_unreliable_message_num,
{
}

} // verus!
