//! Typed API for writing frames into byte buffers bound for QUIC streams and datagrams.
use super::common::{
    ChanId, FrameTag, VERSION, VERSION_FRAME_HUMAN_TEXT, VERSION_FRAME_MAGIC_BYTES,
};
use super::varint::{varbytes, varint_bytes, write_varint};
use vstd::prelude::*;

verus! {

/// Byte buffer with helpers for writing the wire primitives.
pub struct Writer(pub Vec<u8>);

impl Writer {
    /// Construct empty.
    pub fn new() -> (w: Writer)
        ensures
            w.0@ == Seq::<u8>::empty(),
    {
        Writer(Vec::new())
    }

    /// Write bytes by copying them.
    pub fn write(&mut self, bytes: &[u8])
        ensures
            final(self).0@ == old(self).0@ + bytes@,
    {
        let ghost orig = self.0@;
        let mut i: usize = 0;
        while i < bytes.len()
            invariant
                i <= bytes.len(),
                self.0@ == orig + bytes@.subrange(0, i as int),
            decreases bytes.len() - i,
        {
            self.0.push(bytes[i]);
            assert(bytes@.subrange(0, i + 1) =~= bytes@.subrange(0, i as int).push(bytes@[i as int]));
            i = i + 1;
        }
        assert(bytes@.subrange(0, i as int) =~= bytes@);
    }

    /// Write bytes by moving them in.
    pub fn write_zc(&mut self, bytes: Vec<u8>)
        ensures
            final(self).0@ == old(self).0@ + bytes@,
    {
        let mut bytes = bytes;
        self.0.append(&mut bytes);
    }

    /// Write a var len int.
    pub fn write_varint(&mut self, i: u64)
        ensures
            final(self).0@ == old(self).0@ + varint_bytes(i),
    {
        write_varint(&mut self.0, i);
    }

    /// Write a variable length-prefixed byte array.
    pub fn write_varbytes(&mut self, bytes: Vec<u8>)
        ensures
            final(self).0@ == old(self).0@ + varbytes(bytes@),
    {
        let ghost orig = self.0@;
        self.write_varint(bytes.len() as u64);
        self.write_zc(bytes);
        assert(self.0@ =~= orig + varbytes(bytes@));
    }

    /// Whether no bytes have been written.
    pub fn is_empty(&self) -> (r: bool)
        ensures
            r == (self.0@.len() == 0),
    {
        self.0.len() == 0
    }

    /// Number of bytes written.
    pub fn len(&self) -> (r: usize)
        ensures
            r == self.0@.len(),
    {
        self.0.len()
    }

    /// Take the written bytes.
    pub fn into_bytes(self) -> (r: Vec<u8>)
        ensures
            r@ == self.0@,
    {
        self.0
    }
}

/// The bytes of a Version frame.
pub open spec fn version_frame_bytes() -> Seq<u8> {
    seq![FrameTag::Version.tag_byte()] + VERSION_FRAME_MAGIC_BYTES@ + VERSION_FRAME_HUMAN_TEXT@
        + varbytes(VERSION@)
}

/// Typed API for writing a sequence of Aqueduct frames.
pub struct Frames(pub Writer);

impl Frames {
    /// The bytes written so far.
    pub open spec fn bytes(&self) -> Seq<u8> {
        self.0.0@
    }

    /// Construct empty.
    pub fn new() -> (f: Frames)
        ensures
            f.bytes() == Seq::<u8>::empty(),
    {
        Frames(Writer::new())
    }

    /// Construct, encoding a Version frame if the remote has not yet acknowledged the version,
    /// but otherwise empty.
    pub fn new_with_version(remote_acked_version: bool) -> (f: Frames)
        ensures
            f.bytes() == (if remote_acked_version {
                Seq::<u8>::empty()
            } else {
                version_frame_bytes()
            }),
    {
        let mut frames = Frames::new();
        if !remote_acked_version {
            frames.version();
        }
        frames
    }

    /// Take the encoded bytes.
    pub fn into_bytes(self) -> (r: Vec<u8>)
        ensures
            r@ == self.bytes(),
    {
        self.0.into_bytes()
    }

    /// Write a single-byte frame.
    fn tag(&mut self, tag: FrameTag)
        ensures
            final(self).bytes() == old(self).bytes().push(tag.tag_byte()),
    {
        let ghost orig = self.bytes();
        let mut v: Vec<u8> = Vec::new();
        v.push(tag.to_byte());
        self.0.write_zc(v);
        assert(self.bytes() =~= orig.push(tag.tag_byte()));
    }

    /// Write a Version frame.
    pub fn version(&mut self)
        ensures
            final(self).bytes() == old(self).bytes() + version_frame_bytes(),
    {
        let ghost orig = self.bytes();
        self.tag(FrameTag::Version);
        self.0.write(&VERSION_FRAME_MAGIC_BYTES);
        self.0.write(&VERSION_FRAME_HUMAN_TEXT);
        let version = VERSION;
        let mut v: Vec<u8> = Vec::new();
        let mut i: usize = 0;
        while i < 11
            invariant
                i <= 11,
                version@ == VERSION@,
                v@ == version@.subrange(0, i as int),
            decreases 11 - i,
        {
            v.push(version[i]);
            assert(version@.subrange(0, i + 1) =~= version@.subrange(0, i as int).push(
                version@[i as int],
            ));
            i = i + 1;
        }
        assert(v@ =~= VERSION@);
        self.0.write_varbytes(v);
        assert(self.bytes() =~= orig + version_frame_bytes());
    }

    /// Write an AckVersion frame.
    pub fn ack_version(&mut self)
        ensures
            final(self).bytes() == old(self).bytes().push(FrameTag::AckVersion.tag_byte()),
    {
        self.tag(FrameTag::AckVersion);
    }

    /// Write a ConnectionHeaders frame.
    pub fn connection_headers(&mut self, connection_headers: Headers)
        ensures
            final(self).bytes() == old(self).bytes().push(FrameTag::ConnectionHeaders.tag_byte())
                + varbytes(connection_headers.bytes()),
    {
        let ghost orig = self.bytes();
        self.tag(FrameTag::ConnectionHeaders);
        self.0.write_varbytes(connection_headers.0.into_bytes());
        assert(self.bytes() =~= orig.push(FrameTag::ConnectionHeaders.tag_byte()) + varbytes(
            connection_headers.bytes(),
        ));
    }

    /// Write a RouteTo frame.
    pub fn route_to(&mut self, chan_id: ChanId)
        ensures
            final(self).bytes() == old(self).bytes().push(FrameTag::RouteTo.tag_byte())
                + varint_bytes(chan_id.0),
    {
        let ghost orig = self.bytes();
        self.tag(FrameTag::RouteTo);
        self.0.write_varint(chan_id.0);
        assert(self.bytes() =~= orig.push(FrameTag::RouteTo.tag_byte()) + varint_bytes(chan_id.0));
    }

    /// Write a Message frame.
    pub fn message(
        &mut self,
        message_num: u64,
        message_headers: Headers,
        attachments: Attachments,
        payload: Vec<u8>,
    )
        ensures
            final(self).bytes() == old(self).bytes().push(FrameTag::Message.tag_byte())
                + varint_bytes(message_num) + varbytes(message_headers.bytes()) + varbytes(
                attachments.bytes(),
            ) + varbytes(payload@),
    {
        let ghost orig = self.bytes();
        self.tag(FrameTag::Message);
        self.0.write_varint(message_num);
        self.0.write_varbytes(message_headers.0.into_bytes());
        self.0.write_varbytes(attachments.0.into_bytes());
        self.0.write_varbytes(payload);
        assert(self.bytes() =~= orig.push(FrameTag::Message.tag_byte()) + varint_bytes(message_num)
            + varbytes(message_headers.bytes()) + varbytes(attachments.bytes()) + varbytes(
            payload@,
        ));
    }

    /// Write a SentUnreliable frame.
    pub fn sent_unreliable(&mut self, count: u64)
        ensures
            final(self).bytes() == old(self).bytes().push(FrameTag::SentUnreliable.tag_byte())
                + varint_bytes(count),
    {
        let ghost orig = self.bytes();
        self.tag(FrameTag::SentUnreliable);
        self.0.write_varint(count);
        assert(self.bytes() =~= orig.push(FrameTag::SentUnreliable.tag_byte()) + varint_bytes(
            count,
        ));
    }

    /// Write a FinishSender frame.
    pub fn finish_sender(&mut self, sent_reliable: u64)
        ensures
            final(self).bytes() == old(self).bytes().push(FrameTag::FinishSender.tag_byte())
                + varint_bytes(sent_reliable),
    {
        let ghost orig = self.bytes();
        self.tag(FrameTag::FinishSender);
        self.0.write_varint(sent_reliable);
        assert(self.bytes() =~= orig.push(FrameTag::FinishSender.tag_byte()) + varint_bytes(
            sent_reliable,
        ));
    }

    /// Write a CancelSender frame.
    pub fn cancel_sender(&mut self)
        ensures
            final(self).bytes() == old(self).bytes().push(FrameTag::CancelSender.tag_byte()),
    {
        self.tag(FrameTag::CancelSender);
    }

    /// Write an AckReliable frame.
    pub fn ack_reliable(&mut self)
        ensures
            final(self).bytes() == old(self).bytes().push(FrameTag::AckReliable.tag_byte()),
    {
        self.tag(FrameTag::AckReliable);
    }

    /// Write an AckNackUnreliable frame.
    pub fn ack_nack_unreliable(&mut self, deltas: Deltas)
        ensures
            final(self).bytes() == old(self).bytes().push(FrameTag::AckNackUnreliable.tag_byte())
                + varbytes(deltas.bytes()),
    {
        let ghost orig = self.bytes();
        self.tag(FrameTag::AckNackUnreliable);
        self.0.write_varbytes(deltas.0.into_bytes());
        assert(self.bytes() =~= orig.push(FrameTag::AckNackUnreliable.tag_byte()) + varbytes(
            deltas.bytes(),
        ));
    }

    /// Write a CloseReceiver frame.
    pub fn close_receiver(&mut self)
        ensures
            final(self).bytes() == old(self).bytes().push(FrameTag::CloseReceiver.tag_byte()),
    {
        self.tag(FrameTag::CloseReceiver);
    }

    /// Write a ForgetChannel frame.
    pub fn forget_channel(&mut self, chan_id: ChanId)
        ensures
            final(self).bytes() == old(self).bytes().push(FrameTag::ForgetChannel.tag_byte())
                + varint_bytes(chan_id.0),
    {
        let ghost orig = self.bytes();
        self.tag(FrameTag::ForgetChannel);
        self.0.write_varint(chan_id.0);
        assert(self.bytes() =~= orig.push(FrameTag::ForgetChannel.tag_byte()) + varint_bytes(
            chan_id.0,
        ));
    }
}

/// Sequence of key/value headers.
pub struct Headers(pub Writer);

impl Headers {
    /// The bytes written so far.
    pub open spec fn bytes(&self) -> Seq<u8> {
        self.0.0@
    }

    /// Construct empty.
    pub fn new() -> (h: Headers)
        ensures
            h.bytes() == Seq::<u8>::empty(),
    {
        Headers(Writer::new())
    }

    /// Write a header.
    pub fn header(&mut self, key: Vec<u8>, val: Vec<u8>)
        ensures
            final(self).bytes() == old(self).bytes() + varbytes(key@) + varbytes(val@),
    {
        let ghost orig = self.bytes();
        self.0.write_varbytes(key);
        self.0.write_varbytes(val);
        assert(self.bytes() =~= orig + varbytes(key@) + varbytes(val@));
    }
}

/// Sequence of message attachments.
pub struct Attachments(pub Writer);

impl Attachments {
    /// The bytes written so far.
    pub open spec fn bytes(&self) -> Seq<u8> {
        self.0.0@
    }

    /// Construct empty.
    pub fn new() -> (a: Attachments)
        ensures
            a.bytes() == Seq::<u8>::empty(),
    {
        Attachments(Writer::new())
    }

    /// Write an attachment: the attached channel and its headers.
    pub fn attachment(&mut self, chan_id: ChanId, chan_headers: Headers)
        ensures
            final(self).bytes() == old(self).bytes() + varint_bytes(chan_id.0) + varbytes(
                chan_headers.bytes(),
            ),
    {
        let ghost orig = self.bytes();
        self.0.write_varint(chan_id.0);
        self.0.write_varbytes(chan_headers.0.into_bytes());
        assert(self.bytes() =~= orig + varint_bytes(chan_id.0) + varbytes(chan_headers.bytes()));
    }
}

/// Sequence of ack/nack deltas.
pub struct Deltas(pub Writer);

impl Deltas {
    /// The bytes written so far.
    pub open spec fn bytes(&self) -> Seq<u8> {
        self.0.0@
    }

    /// Construct empty.
    pub fn new() -> (d: Deltas)
        ensures
            d.bytes() == Seq::<u8>::empty(),
    {
        Deltas(Writer::new())
    }

    /// Write a delta.
    pub fn delta(&mut self, n: u64)
        ensures
            final(self).bytes() == old(self).bytes() + varint_bytes(n),
    {
        self.0.write_varint(n);
    }
}

} // verus!
