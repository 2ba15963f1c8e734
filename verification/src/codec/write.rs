//! Frame encoding with the frame types of [`FrameType`].
use super::common::{ChanId, FrameType};
use crate::frame::common::{VERSION, VERSION_FRAME_HUMAN_TEXT, VERSION_FRAME_MAGIC_BYTES};
use crate::frame::varint::{varbytes, varint_bytes};
use crate::frame::write::Writer;
use vstd::prelude::*;

verus! {

/// The bytes of a Version frame.
pub open spec fn version_frame_bytes() -> Seq<u8> {
    seq![FrameType::Version.type_byte()] + VERSION_FRAME_MAGIC_BYTES@ + VERSION_FRAME_HUMAN_TEXT@
        + varbytes(VERSION@)
}

/// How to send written frames that were meant for a datagram.
#[derive(Debug, Copy, Clone, PartialEq, Eq, Structural)]
pub enum DatagramRoute {
    /// In one datagram; should the connection refuse it as too large, on a new stream.
    Datagram,
    /// On a new unidirectional stream, as they exceed the largest datagram.
    NewStream,
}

/// Error for sending a datagram on a connection that has datagrams disabled.
#[derive(Debug, Copy, Clone, PartialEq, Eq, Structural)]
pub struct DatagramsDisabled;

/// Decide how to send `len` bytes of frames meant for a datagram, given the connection's largest
/// datagram size, `None` when datagrams are disabled.
pub fn datagram_route(len: usize, max_datagram_size: Option<usize>) -> (r: Result<DatagramRoute, DatagramsDisabled>)
    ensures
        r == (match max_datagram_size {
            None => Err::<DatagramRoute, DatagramsDisabled>(DatagramsDisabled),
            Some(max) => Ok::<DatagramRoute, DatagramsDisabled>(
                if len > max { DatagramRoute::NewStream } else { DatagramRoute::Datagram },
            ),
        }),
{
    match max_datagram_size {
        None => Err(DatagramsDisabled),
        Some(max) => {
            if len > max {
                Ok(DatagramRoute::NewStream)
            } else {
                Ok(DatagramRoute::Datagram)
            }
        },
    }
}

/// Typed API for writing a sequence of frames.
pub struct Frames(Writer);

impl Frames {
    /// The bytes written so far.
    pub closed spec fn bytes(&self) -> Seq<u8> {
        self.0.0@
    }

    /// Construct empty.
    pub fn new() -> (f: Frames)
        ensures
            f.bytes() == Seq::<u8>::empty(),
    {
        Frames(Writer::new())
    }

    /// The number of bytes written so far.
    pub fn len(&self) -> (r: usize)
        ensures
            r == self.bytes().len(),
    {
        self.0.0.len()
    }

    /// Take the encoded bytes.
    pub fn into_bytes(self) -> (r: Vec<u8>)
        ensures
            r@ == self.bytes(),
    {
        self.0.into_bytes()
    }

    fn tag(&mut self, t: FrameType)
        ensures
            final(self).bytes() == old(self).bytes().push(t.type_byte()),
    {
        let b = t.to_byte();
        self.0.write(&[b]);
        assert(seq![b] =~= [b]@);
    }

    /// Write a Version frame.
    pub fn version(&mut self)
        ensures
            final(self).bytes() == old(self).bytes() + version_frame_bytes(),
    {
        let ghost orig = self.bytes();
        self.tag(FrameType::Version);
        self.0.write(&VERSION_FRAME_MAGIC_BYTES);
        self.0.write(&VERSION_FRAME_HUMAN_TEXT);
        self.0.write_varint(11);
        self.0.write(&VERSION);
        assert(self.bytes() =~= orig + version_frame_bytes());
    }

    /// Write a ConnectionControl frame (type byte and a zero byte).
    pub fn connection_control(&mut self)
        ensures
            final(self).bytes() == old(self).bytes() + seq![FrameType::ConnectionControl.type_byte(), 0u8],
    {
        let ghost orig = self.bytes();
        self.tag(FrameType::ConnectionControl);
        self.0.write(&[0]);
        assert(self.bytes() =~= orig + seq![FrameType::ConnectionControl.type_byte(), 0u8]);
    }

    /// Write a ChannelControl frame.
    pub fn channel_control(&mut self, chan_id: ChanId)
        ensures
            final(self).bytes() == old(self).bytes() + seq![FrameType::ChannelControl.type_byte()]
                + varint_bytes(chan_id.0),
    {
        let ghost orig = self.bytes();
        self.tag(FrameType::ChannelControl);
        self.0.write_varint(chan_id.0);
        assert(self.bytes() =~= orig + seq![FrameType::ChannelControl.type_byte()] + varint_bytes(chan_id.0));
    }

    /// Write a Message frame.
    pub fn message(&mut self, sent_on: ChanId, message_num: u64, attachments: Attachments, payload: Vec<u8>)
        requires
            attachments.bytes().len() <= u64::MAX,
            payload@.len() <= u64::MAX,
        ensures
            final(self).bytes() == old(self).bytes() + seq![FrameType::Message.type_byte()]
                + varint_bytes(sent_on.0) + varint_bytes(message_num) + varbytes(attachments.bytes())
                + varbytes(payload@),
    {
        let ghost orig = self.bytes();
        let ghost att = attachments.bytes();
        self.tag(FrameType::Message);
        self.0.write_varint(sent_on.0);
        self.0.write_varint(message_num);
        self.0.write_varbytes(attachments.0.into_bytes());
        self.0.write_varbytes(payload);
        assert(self.bytes() =~= orig + seq![FrameType::Message.type_byte()] + varint_bytes(sent_on.0)
            + varint_bytes(message_num) + varbytes(att) + varbytes(payload@));
    }

    /// Write a SentUnreliable frame.
    pub fn sent_unreliable(&mut self, delta: u64)
        ensures
            final(self).bytes() == old(self).bytes() + seq![FrameType::SentUnreliable.type_byte()]
                + varint_bytes(delta),
    {
        let ghost orig = self.bytes();
        self.tag(FrameType::SentUnreliable);
        self.0.write_varint(delta);
        assert(self.bytes() =~= orig + seq![FrameType::SentUnreliable.type_byte()] + varint_bytes(delta));
    }

    fn pos_neg_frame(&mut self, t: FrameType, ranges: PosNegRanges)
        requires
            ranges.can_finalize(),
        ensures
            final(self).bytes() == old(self).bytes() + seq![t.type_byte()] + varbytes(
                ranges.finalized(),
            ),
    {
        let ghost orig = self.bytes();
        self.tag(t);
        let b = ranges.finalize();
        self.0.write_varbytes(b);
        assert(self.bytes() =~= orig + seq![t.type_byte()] + varbytes(ranges.finalized()));
    }

    /// Write an AckReliable frame.
    pub fn ack_reliable(&mut self, acks: PosNegRanges)
        requires
            acks.can_finalize(),
        ensures
            final(self).bytes() == old(self).bytes() + seq![FrameType::AckReliable.type_byte()]
                + varbytes(acks.finalized()),
    {
        self.pos_neg_frame(FrameType::AckReliable, acks);
    }

    /// Write an AckNackUnreliable frame.
    pub fn ack_nack_unreliable(&mut self, ack_nacks: PosNegRanges)
        requires
            ack_nacks.can_finalize(),
        ensures
            final(self).bytes() == old(self).bytes() + seq![FrameType::AckNackUnreliable.type_byte()]
                + varbytes(ack_nacks.finalized()),
    {
        self.pos_neg_frame(FrameType::AckNackUnreliable, ack_nacks);
    }

    /// Write a FinishSender frame.
    pub fn finish_sender(&mut self, reliable_count: u64)
        ensures
            final(self).bytes() == old(self).bytes() + seq![FrameType::FinishSender.type_byte()]
                + varint_bytes(reliable_count),
    {
        let ghost orig = self.bytes();
        self.tag(FrameType::FinishSender);
        self.0.write_varint(reliable_count);
        assert(self.bytes() =~= orig + seq![FrameType::FinishSender.type_byte()] + varint_bytes(reliable_count));
    }

    /// Write a CloseReceiver frame.
    pub fn close_receiver(&mut self, reliable_ack_nacks: PosNegRanges)
        requires
            reliable_ack_nacks.can_finalize(),
        ensures
            final(self).bytes() == old(self).bytes() + seq![FrameType::CloseReceiver.type_byte()]
                + varbytes(reliable_ack_nacks.finalized()),
    {
        self.pos_neg_frame(FrameType::CloseReceiver, reliable_ack_nacks);
    }

    /// Write a ClosedChannelLost frame.
    pub fn closed_channel_lost(&mut self, chan_id: ChanId)
        ensures
            final(self).bytes() == old(self).bytes() + seq![FrameType::ClosedChannelLost.type_byte()]
                + varint_bytes(chan_id.0),
    {
        let ghost orig = self.bytes();
        self.tag(FrameType::ClosedChannelLost);
        self.0.write_varint(chan_id.0);
        assert(self.bytes() =~= orig + seq![FrameType::ClosedChannelLost.type_byte()] + varint_bytes(chan_id.0));
    }
}

/// Typed API for writing a sequence of message attachments.
pub struct Attachments(Writer);

impl Attachments {
    /// The bytes written so far.
    pub closed spec fn bytes(&self) -> Seq<u8> {
        self.0.0@
    }

    /// Construct empty.
    pub fn new() -> (a: Attachments)
        ensures
            a.bytes() == Seq::<u8>::empty(),
    {
        Attachments(Writer::new())
    }

    /// Write an attachment.
    pub fn attachment(&mut self, chan_id: ChanId)
        ensures
            final(self).bytes() == old(self).bytes() + varint_bytes(chan_id.0),
    {
        self.0.write_varint(chan_id.0);
    }
}

/// Writer of alternating positive and negative deltas, each a var len int, starting with a
/// positive one: zero deltas are dropped, consecutive deltas of the same sign are merged, and an
/// initial empty positive delta is written before a leading negative one.
pub struct PosNegRanges {
    written: Writer,
    pending: Option<(bool, u64)>,
}

impl PosNegRanges {
    /// The bytes written so far, not counting the pending delta.
    pub closed spec fn written(&self) -> Seq<u8> {
        self.written.0@
    }

    /// The delta not yet written, with its sign (`true` for positive), which may still grow.
    pub closed spec fn pending(&self) -> Option<(bool, u64)> {
        self.pending
    }

    /// Whether something has been written or is pending.
    pub open spec fn can_finalize(&self) -> bool {
        self.pending() is Some || self.written().len() > 0
    }

    /// The bytes that finalizing produces: the written bytes followed by the pending delta.
    pub open spec fn finalized(&self) -> Seq<u8> {
        match self.pending() {
            Some((_, d)) => self.written() + varint_bytes(d),
            None => self.written(),
        }
    }

    /// Construct empty.
    pub fn new() -> (r: Self)
        ensures
            r.written() == Seq::<u8>::empty(),
            r.pending() is None,
    {
        PosNegRanges { written: Writer::new(), pending: None }
    }

    /// Add a positive delta.
    pub fn pos_delta(&mut self, delta: u64)
        requires
            old(self).pending() matches Some((true, p)) ==> p + delta <= u64::MAX,
        ensures
            delta == 0 ==> *final(self) == *old(self),
            delta != 0 ==> match old(self).pending() {
                None => final(self).written() == old(self).written() && final(self).pending()
                    == Some((true, delta)),
                Some((true, p)) => final(self).written() == old(self).written()
                    && final(self).pending() == Some((true, (p + delta) as u64)),
                Some((false, p)) => final(self).written() == old(self).written() + varint_bytes(p)
                    && final(self).pending() == Some((true, delta)),
            },
    {
        if delta == 0 {
            return ;
        }
        match self.pending {
            None => {
                self.pending = Some((true, delta));
            },
            Some((true, p)) => {
                self.pending = Some((true, p + delta));
            },
            Some((false, p)) => {
                self.written.write_varint(p);
                self.pending = Some((true, delta));
            },
        }
    }

    /// Add a negative delta.
    pub fn neg_delta(&mut self, delta: u64)
        requires
            old(self).pending() matches Some((false, p)) ==> p + delta <= u64::MAX,
        ensures
            delta == 0 ==> *final(self) == *old(self),
            delta != 0 ==> match old(self).pending() {
                None => final(self).written() == (if old(self).written().len() == 0 {
                    varint_bytes(0)
                } else {
                    old(self).written()
                }) && final(self).pending() == Some((false, delta)),
                Some((false, p)) => final(self).written() == old(self).written()
                    && final(self).pending() == Some((false, (p + delta) as u64)),
                Some((true, p)) => final(self).written() == old(self).written() + varint_bytes(p)
                    && final(self).pending() == Some((false, delta)),
            },
    {
        if delta == 0 {
            return ;
        }
        match self.pending {
            None => {
                if self.written.is_empty() {
                    self.written.write_varint(0);
                    assert(self.written.0@ =~= varint_bytes(0));
                }
                self.pending = Some((false, delta));
            },
            Some((false, p)) => {
                self.pending = Some((false, p + delta));
            },
            Some((true, p)) => {
                self.written.write_varint(p);
                self.pending = Some((false, delta));
            },
        }
    }

    /// Write out the pending delta and take the bytes.
    pub fn finalize(self) -> (r: Vec<u8>)
        requires
            self.can_finalize(),
        ensures
            r@ == self.finalized(),
            r@.len() > 0,
    {
        let mut w = self.written;
        if let Some((_, p)) = self.pending {
            w.write_varint(p);
            proof {
                crate::frame::varint::lemma_varint_roundtrip(p, Seq::<u8>::empty());
            }
        }
        w.into_bytes()
    }
}

} // verus!
