//! Aqueduct encoding/decoding shared types and functions.
use vstd::prelude::*;

verus! {

/// A side of a connection: `false` is the client, `true` is the server.
#[derive(Debug, Copy, Clone, PartialEq, Eq, Structural)]
pub struct Side(pub bool);

/// A direction between client and server.
#[derive(Debug, Copy, Clone, PartialEq, Eq, Structural)]
pub enum Dir {
    ToServer,
    ToClient,
}

impl Side {
    /// The client side.
    pub fn client() -> (r: Side)
        ensures
            r.0 == false,
    {
        Side(false)
    }

    /// The server side.
    pub fn server() -> (r: Side)
        ensures
            r.0 == true,
    {
        Side(true)
    }

    /// The other side of the connection.
    pub open spec fn opposite_spec(self) -> Side {
        Side(!self.0)
    }

    /// The direction of travel towards this side.
    pub open spec fn dir_to_spec(self) -> Dir {
        if self.0 {
            Dir::ToServer
        } else {
            Dir::ToClient
        }
    }

    /// The other side of the connection.
    pub fn opposite(self) -> (r: Side)
        ensures
            r.0 == !self.0,
            r == self.opposite_spec(),
    {
        Side(!self.0)
    }

    /// The direction of travel towards this side.
    pub fn dir_to(self) -> (r: Dir)
        ensures
            r == (if self.0 { Dir::ToServer } else { Dir::ToClient }),
            r == self.dir_to_spec(),
    {
        if self.0 {
            Dir::ToServer
        } else {
            Dir::ToClient
        }
    }
}

impl Dir {
    /// The side that data travelling in this direction arrives at.
    pub fn side_to(self) -> (r: Side)
        ensures
            r.0 == (self == Dir::ToServer),
    {
        match self {
            Dir::ToServer => Side::server(),
            Dir::ToClient => Side::client(),
        }
    }
}


/// Channel ID, packing the creating side, the sending side, whether the channel is oneshot and
/// the channel index into a single integer.
///
/// Bit 0 is the creator side, bit 1 the sender side, bit 2 the oneshot flag, and the remaining
/// high bits the index.
#[derive(Debug, Copy, Clone, PartialEq, Eq, Hash, Structural)]
pub struct ChanId(pub u64);

/// Largest channel index plus one: indices must fit in 61 bits.
pub const CHAN_IDX_LIMIT: u64 = 0x2000_0000_0000_0000;

/// The packed integer of a channel ID with the given components.
pub open spec fn chan_id_bits(creator: bool, sender: bool, oneshot: bool, idx: int) -> int {
    idx * 8 + (if oneshot { 4int } else { 0int }) + (if sender { 2int } else { 0int }) + (if creator {
        1int
    } else {
        0int
    })
}

impl ChanId {
    /// Whether the creator bit is set (the server created the channel).
    pub open spec fn creator_bit(self) -> bool {
        self.0 % 2 == 1
    }

    /// Whether the sender bit is set (the server sends on the channel).
    pub open spec fn sender_bit(self) -> bool {
        (self.0 / 2) % 2 == 1
    }

    /// Whether the oneshot bit is set.
    pub open spec fn oneshot_bit(self) -> bool {
        (self.0 / 4) % 2 == 1
    }

    /// The channel index part.
    pub open spec fn idx_part(self) -> u64 {
        self.0 / 8
    }

    /// The entrypoint channel: index 0, created by the client, sent by the client, multishot.
    pub open spec fn entrypoint_spec() -> ChanId {
        ChanId(0)
    }

    /// The entrypoint channel: index 0, created by the client, sent by the client, multishot.
    pub fn entrypoint() -> (r: ChanId)
        ensures
            r == ChanId::entrypoint_spec(),
    {
        ChanId(0)
    }

    /// Pack the components into a channel ID.
    ///
    /// The index must fit in 61 bits.
    pub fn new(creator: Side, sender: Side, oneshot: bool, idx: u64) -> (r: ChanId)
        requires
            idx < CHAN_IDX_LIMIT,
        ensures
            r.0 == chan_id_bits(creator.0, sender.0, oneshot, idx as int),
            r.creator_bit() == creator.0,
            r.sender_bit() == sender.0,
            r.oneshot_bit() == oneshot,
            r.idx_part() == idx,
    {
        let c: u64 = if creator.0 { 1 } else { 0 };
        let s: u64 = if sender.0 { 2 } else { 0 };
        let o: u64 = if oneshot { 4 } else { 0 };
        proof {
            lemma_unpack(idx as int, (o / 4) as int, (s / 2) as int, c as int);
        }
        ChanId(idx * 8 + o + s + c)
    }

    /// The side that created this channel.
    pub fn creator(self) -> (r: Side)
        ensures
            r.0 == self.creator_bit(),
    {
        Side(self.0 % 2 == 1)
    }

    /// The side that sends on this channel.
    pub fn sender(self) -> (r: Side)
        ensures
            r.0 == self.sender_bit(),
    {
        Side((self.0 / 2) % 2 == 1)
    }

    /// Whether this channel carries a single message.
    pub fn is_oneshot(self) -> (r: bool)
        ensures
            r == self.oneshot_bit(),
    {
        (self.0 / 4) % 2 == 1
    }

    /// The channel index.
    pub fn idx(self) -> (r: u64)
        ensures
            r == self.idx_part(),
            r < CHAN_IDX_LIMIT,
    {
        self.0 / 8
    }

    /// The side that minted (created) this channel.
    pub fn minted_by(self) -> (r: Side)
        ensures
            r.0 == self.creator_bit(),
    {
        self.creator()
    }

    /// The direction messages travel on this channel: towards the side that does not send.
    pub fn dir(self) -> (r: Dir)
        ensures
            r == (if self.sender_bit() { Dir::ToClient } else { Dir::ToServer }),
    {
        if self.sender().0 {
            Dir::ToClient
        } else {
            Dir::ToServer
        }
    }
}

/// Reading back the fields of a packed channel ID.
pub proof fn lemma_unpack(idx: int, o: int, s: int, c: int)
    requires
        0 <= c <= 1,
        0 <= s <= 1,
        0 <= o <= 1,
        0 <= idx,
    ensures
        (idx * 8 + o * 4 + s * 2 + c) % 2 == c,
        ((idx * 8 + o * 4 + s * 2 + c) / 2) % 2 == s,
        ((idx * 8 + o * 4 + s * 2 + c) / 4) % 2 == o,
        (idx * 8 + o * 4 + s * 2 + c) / 8 == idx,
{
    assert((idx * 8 + o * 4 + s * 2 + c) % 2 == c) by (nonlinear_arith)
        requires
            0 <= c <= 1,
            0 <= s <= 1,
            0 <= o <= 1,
            0 <= idx,
    ;
    assert((idx * 8 + o * 4 + s * 2 + c) / 2 == idx * 4 + o * 2 + s) by (nonlinear_arith)
        requires
            0 <= c <= 1,
            0 <= s <= 1,
            0 <= o <= 1,
            0 <= idx,
    ;
    assert((idx * 4 + o * 2 + s) % 2 == s) by (nonlinear_arith)
        requires
            0 <= s <= 1,
            0 <= o <= 1,
            0 <= idx,
    ;
    assert((idx * 8 + o * 4 + s * 2 + c) / 4 == idx * 2 + o) by (nonlinear_arith)
        requires
            0 <= c <= 1,
            0 <= s <= 1,
            0 <= o <= 1,
            0 <= idx,
    ;
    assert((idx * 2 + o) % 2 == o) by (nonlinear_arith)
        requires
            0 <= o <= 1,
            0 <= idx,
    ;
    assert((idx * 8 + o * 4 + s * 2 + c) / 8 == idx) by (nonlinear_arith)
        requires
            0 <= c <= 1,
            0 <= s <= 1,
            0 <= o <= 1,
            0 <= idx,
    ;
}

/// Every channel ID is the packing of its own components.
pub proof fn lemma_chan_id_decomposes(c: ChanId)
    ensures
        c.idx_part() < CHAN_IDX_LIMIT,
        c.0 == chan_id_bits(c.creator_bit(), c.sender_bit(), c.oneshot_bit(), c.idx_part() as int),
{
}

/// Frame tags: the first byte of each frame.
#[derive(Debug, Copy, Clone, PartialEq, Eq, Structural)]
pub enum FrameTag {
    Version,
    AckVersion,
    ConnectionHeaders,
    RouteTo,
    Message,
    SentUnreliable,
    FinishSender,
    CancelSender,
    AckReliable,
    AckNackUnreliable,
    CloseReceiver,
    ForgetChannel,
}

impl FrameTag {
    /// The byte that encodes this tag.
    pub open spec fn tag_byte(self) -> u8 {
        match self {
            FrameTag::Version => 239,
            FrameTag::AckVersion => 1,
            FrameTag::ConnectionHeaders => 2,
            FrameTag::RouteTo => 3,
            FrameTag::Message => 4,
            FrameTag::SentUnreliable => 5,
            FrameTag::FinishSender => 6,
            FrameTag::CancelSender => 7,
            FrameTag::AckReliable => 8,
            FrameTag::AckNackUnreliable => 9,
            FrameTag::CloseReceiver => 10,
            FrameTag::ForgetChannel => 11,
        }
    }

    /// The byte that encodes this tag.
    pub fn to_byte(self) -> (b: u8)
        ensures
            b == self.tag_byte(),
    {
        match self {
            FrameTag::Version => 239,
            FrameTag::AckVersion => 1,
            FrameTag::ConnectionHeaders => 2,
            FrameTag::RouteTo => 3,
            FrameTag::Message => 4,
            FrameTag::SentUnreliable => 5,
            FrameTag::FinishSender => 6,
            FrameTag::CancelSender => 7,
            FrameTag::AckReliable => 8,
            FrameTag::AckNackUnreliable => 9,
            FrameTag::CloseReceiver => 10,
            FrameTag::ForgetChannel => 11,
        }
    }

    /// The tag that a byte encodes, if any.
    pub fn from_byte(b: u8) -> (r: Option<FrameTag>)
        ensures
            r == tag_from_byte(b),
            r matches Some(t) ==> t.tag_byte() == b,
            r is None ==> forall|t: FrameTag| t.tag_byte() != b,
    {
        if b == 239 {
            Some(FrameTag::Version)
        } else if b == 1 {
            Some(FrameTag::AckVersion)
        } else if b == 2 {
            Some(FrameTag::ConnectionHeaders)
        } else if b == 3 {
            Some(FrameTag::RouteTo)
        } else if b == 4 {
            Some(FrameTag::Message)
        } else if b == 5 {
            Some(FrameTag::SentUnreliable)
        } else if b == 6 {
            Some(FrameTag::FinishSender)
        } else if b == 7 {
            Some(FrameTag::CancelSender)
        } else if b == 8 {
            Some(FrameTag::AckReliable)
        } else if b == 9 {
            Some(FrameTag::AckNackUnreliable)
        } else if b == 10 {
            Some(FrameTag::CloseReceiver)
        } else if b == 11 {
            Some(FrameTag::ForgetChannel)
        } else {
            None
        }
    }
}

/// The tag that a byte encodes, if any.
pub open spec fn tag_from_byte(b: u8) -> Option<FrameTag> {
    if b == 239 {
        Some(FrameTag::Version)
    } else if b == 1 {
        Some(FrameTag::AckVersion)
    } else if b == 2 {
        Some(FrameTag::ConnectionHeaders)
    } else if b == 3 {
        Some(FrameTag::RouteTo)
    } else if b == 4 {
        Some(FrameTag::Message)
    } else if b == 5 {
        Some(FrameTag::SentUnreliable)
    } else if b == 6 {
        Some(FrameTag::FinishSender)
    } else if b == 7 {
        Some(FrameTag::CancelSender)
    } else if b == 8 {
        Some(FrameTag::AckReliable)
    } else if b == 9 {
        Some(FrameTag::AckNackUnreliable)
    } else if b == 10 {
        Some(FrameTag::CloseReceiver)
    } else if b == 11 {
        Some(FrameTag::ForgetChannel)
    } else {
        None
    }
}

/// The tag bytes of the wire protocol, which every peer must agree on: Version 239, AckVersion 1,
/// ConnectionHeaders 2, RouteTo 3, Message 4, SentUnreliable 5, FinishSender 6, CancelSender 7,
/// AckReliable 8, AckNackUnreliable 9, CloseReceiver 10, ForgetChannel 11; each byte reads back as
/// its tag, and no other byte is a tag.
pub proof fn lemma_frame_tag_wire_bytes()
    ensures
        FrameTag::Version.tag_byte() == 239,
        FrameTag::AckVersion.tag_byte() == 1,
        FrameTag::ConnectionHeaders.tag_byte() == 2,
        FrameTag::RouteTo.tag_byte() == 3,
        FrameTag::Message.tag_byte() == 4,
        FrameTag::SentUnreliable.tag_byte() == 5,
        FrameTag::FinishSender.tag_byte() == 6,
        FrameTag::CancelSender.tag_byte() == 7,
        FrameTag::AckReliable.tag_byte() == 8,
        FrameTag::AckNackUnreliable.tag_byte() == 9,
        FrameTag::CloseReceiver.tag_byte() == 10,
        FrameTag::ForgetChannel.tag_byte() == 11,
        tag_from_byte(239) == Some(FrameTag::Version),
        tag_from_byte(1) == Some(FrameTag::AckVersion),
        tag_from_byte(2) == Some(FrameTag::ConnectionHeaders),
        tag_from_byte(3) == Some(FrameTag::RouteTo),
        tag_from_byte(4) == Some(FrameTag::Message),
        tag_from_byte(5) == Some(FrameTag::SentUnreliable),
        tag_from_byte(6) == Some(FrameTag::FinishSender),
        tag_from_byte(7) == Some(FrameTag::CancelSender),
        tag_from_byte(8) == Some(FrameTag::AckReliable),
        tag_from_byte(9) == Some(FrameTag::AckNackUnreliable),
        tag_from_byte(10) == Some(FrameTag::CloseReceiver),
        tag_from_byte(11) == Some(FrameTag::ForgetChannel),
        forall|b: u8| #[trigger] tag_from_byte(b) is None <==> !(b == 239 || (1 <= b && b <= 11)),
{
}

/// Decoding the byte of a tag gives the tag back, and distinct tags have distinct bytes.
pub proof fn lemma_frame_tag_byte_injective(t1: FrameTag, t2: FrameTag)
    ensures
        t1.tag_byte() == t2.tag_byte() ==> t1 == t2,
        tag_from_byte(t1.tag_byte()) == Some(t1),
{
}

// constants for variable length integer coding.
pub const VARINT_MASK: u8 = 0b01111111;
pub const VARINT_MORE: u8 = 0b10000000;
pub const VARINT_FINAL_SHIFT: u8 = 56;

// constants for version frame coding.
pub const VERSION_FRAME_MAGIC_BYTES: [u8; 7] = [80, 95, 166, 96, 15, 64, 142];
/// The ASCII text `AQUEDUCT`.
pub const VERSION_FRAME_HUMAN_TEXT: [u8; 8] = [65, 81, 85, 69, 68, 85, 67, 84];
/// The protocol version, as the ASCII text `0.0.0-AFTER`.
pub const VERSION: [u8; 11] = [48, 46, 48, 46, 48, 45, 65, 70, 84, 69, 82];

/// Whether every byte is an ASCII character.
pub open spec fn all_ascii(b: Seq<u8>) -> bool {
    forall|i: int| 0 <= i < b.len() ==> b[i] < 128
}

/// The characters of an ASCII byte string.
pub open spec fn ascii_chars(b: Seq<u8>) -> Seq<char> {
    b.map_values(|c: u8| c as char)
}

/// Wraps `std::str::from_utf8`, on input known to be ASCII: the resulting string has the same
/// characters as the bytes (every ASCII string is valid UTF-8, and each ASCII byte is one char).
#[verifier::external_body]
fn str_from_ascii(b: &[u8]) -> (s: &str)
    requires
        all_ascii(b@),
    ensures
        s@ == ascii_chars(b@),
{
    std::str::from_utf8(b).unwrap()
}

/// View a byte string as a `str` if it is ASCII.
pub fn ascii_to_str(b: &[u8]) -> (r: Option<&str>)
    ensures
        r is Some <==> all_ascii(b@),
        r matches Some(s) ==> s@ == ascii_chars(b@),
{
    let mut i: usize = 0;
    while i < b.len()
        invariant
            i <= b.len(),
            forall|j: int| 0 <= j < i ==> b@[j] < 128,
        decreases b.len() - i,
    {
        if b[i] >= 128 {
            return None;
        }
        i = i + 1;
    }
    Some(str_from_ascii(b))
}

/// A message number, in one of the two numbering spaces.
#[derive(Debug, Copy, Clone, PartialEq, Eq, Structural)]
pub enum MessageNum {
    Reliable(u64),
    Unreliable(u64),
}

} // verus!
