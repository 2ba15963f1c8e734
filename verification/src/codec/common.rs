//! Common types and code between encoding and decoding.
use vstd::prelude::*;

verus! {

/// Side of a connection.
#[derive(Debug, Copy, Clone, PartialEq, Eq, Structural)]
pub enum Side {
    Client,
    Server,
}

impl Side {
    /// The direction of travel towards this side.
    pub fn dir_to(self) -> (r: Dir)
        ensures
            r == (match self {
                Side::Server => Dir::ToServer,
                Side::Client => Dir::ToClient,
            }),
    {
        match self {
            Side::Server => Dir::ToServer,
            Side::Client => Dir::ToClient,
        }
    }

    /// The other side.
    pub fn opposite(self) -> (r: Side)
        ensures
            r != self,
    {
        match self {
            Side::Client => Side::Server,
            Side::Server => Side::Client,
        }
    }
}

/// Direction between client and server.
#[derive(Debug, Copy, Clone, PartialEq, Eq, Structural)]
pub enum Dir {
    ToServer,
    ToClient,
}

impl Dir {
    /// The side that data travelling in this direction arrives at.
    pub fn side_to(self) -> (r: Side)
        ensures
            r == (match self {
                Dir::ToServer => Side::Server,
                Dir::ToClient => Side::Client,
            }),
    {
        match self {
            Dir::ToServer => Side::Server,
            Dir::ToClient => Side::Client,
        }
    }
}

/// Channel ID: bit 0 is the direction, bit 1 the minting side, bit 2 the oneshot flag, and the
/// high bits the index.
#[derive(Debug, Copy, Clone, PartialEq, Eq, Hash, Structural)]
pub struct ChanId(pub u64);

/// Largest channel index plus one: indices must fit in 61 bits.
pub const CHAN_IDX_LIMIT: u64 = 0x2000_0000_0000_0000;

/// The packed integer of a channel ID with the given components.
pub open spec fn chan_id_bits(dir: Dir, minted_by: Side, oneshot: bool, idx: int) -> int {
    idx * 8 + (if oneshot { 4int } else { 0int }) + (if minted_by == Side::Server {
        2int
    } else {
        0int
    }) + (if dir == Dir::ToClient { 1int } else { 0int })
}

impl ChanId {
    /// The entrypoint channel ID.
    pub open spec fn entrypoint_spec() -> ChanId {
        ChanId(0)
    }

    /// The entrypoint channel: index 0, to the server, minted by the client, multishot.
    pub fn entrypoint() -> (r: ChanId)
        ensures
            r == ChanId::entrypoint_spec(),
    {
        ChanId(0)
    }

    /// The direction part.
    pub open spec fn dir_part(self) -> Dir {
        if self.0 % 2 == 0 {
            Dir::ToServer
        } else {
            Dir::ToClient
        }
    }

    /// The minted-by part.
    pub open spec fn minted_by_part(self) -> Side {
        if (self.0 / 2) % 2 == 0 {
            Side::Client
        } else {
            Side::Server
        }
    }

    /// The oneshot part.
    pub open spec fn oneshot_part(self) -> bool {
        (self.0 / 4) % 2 == 1
    }

    /// The index part.
    pub open spec fn idx_part(self) -> u64 {
        self.0 / 8
    }

    /// Pack the components into a channel ID. The index must fit in 61 bits.
    pub fn new(dir: Dir, minted_by: Side, oneshot: bool, idx: u64) -> (r: ChanId)
        requires
            idx < CHAN_IDX_LIMIT,
        ensures
            r.0 == chan_id_bits(dir, minted_by, oneshot, idx as int),
            r.dir_part() == dir,
            r.minted_by_part() == minted_by,
            r.oneshot_part() == oneshot,
            r.idx_part() == idx,
    {
        let d: u64 = match dir {
            Dir::ToServer => 0,
            Dir::ToClient => 1,
        };
        let m: u64 = match minted_by {
            Side::Client => 0,
            Side::Server => 2,
        };
        let o: u64 = if oneshot { 4 } else { 0 };
        proof {
            lemma_unpack(idx as int, (o / 4) as int, (m / 2) as int, d as int);
        }
        ChanId(idx * 8 + o + m + d)
    }

    /// The direction part.
    pub fn dir(self) -> (r: Dir)
        ensures
            r == self.dir_part(),
    {
        if self.0 % 2 == 0 {
            Dir::ToServer
        } else {
            Dir::ToClient
        }
    }

    /// The minted-by part.
    pub fn minted_by(self) -> (r: Side)
        ensures
            r == self.minted_by_part(),
    {
        if (self.0 / 2) % 2 == 0 {
            Side::Client
        } else {
            Side::Server
        }
    }

    /// Whether the channel is oneshot.
    pub fn oneshot(self) -> (r: bool)
        ensures
            r == self.oneshot_part(),
    {
        (self.0 / 4) % 2 == 1
    }

    /// The index part.
    pub fn idx(self) -> (r: u64)
        ensures
            r == self.idx_part(),
    {
        self.0 / 8
    }
}

/// Reading back the fields of a packed channel ID.
pub proof fn lemma_unpack(idx: int, o: int, s: int, c: int)
    requires
        0 <= c <= 1,
        0 <= s <= 1,
        0 <= o <= 1,
        0 <= idx,
    ensures
        (idx * 8 + o * 4 + s * 2 + c) % 2 == c,
        ((idx * 8 + o * 4 + s * 2 + c) / 2) % 2 == s,
        ((idx * 8 + o * 4 + s * 2 + c) / 4) % 2 == o,
        (idx * 8 + o * 4 + s * 2 + c) / 8 == idx,
{
    assert((idx * 8 + o * 4 + s * 2 + c) % 2 == c) by (nonlinear_arith)
        requires
            0 <= c <= 1,
            0 <= s <= 1,
            0 <= o <= 1,
            0 <= idx,
    ;
    assert((idx * 8 + o * 4 + s * 2 + c) / 2 == idx * 4 + o * 2 + s) by (nonlinear_arith)
        requires
            0 <= c <= 1,
            0 <= s <= 1,
            0 <= o <= 1,
            0 <= idx,
    ;
    assert((idx * 4 + o * 2 + s) % 2 == s) by (nonlinear_arith)
        requires
            0 <= s <= 1,
            0 <= o <= 1,
            0 <= idx,
    ;
    assert((idx * 8 + o * 4 + s * 2 + c) / 4 == idx * 2 + o) by (nonlinear_arith)
        requires
            0 <= c <= 1,
            0 <= s <= 1,
            0 <= o <= 1,
            0 <= idx,
    ;
    assert((idx * 2 + o) % 2 == o) by (nonlinear_arith)
        requires
            0 <= o <= 1,
            0 <= idx,
    ;
    assert((idx * 8 + o * 4 + s * 2 + c) / 8 == idx) by (nonlinear_arith)
        requires
            0 <= c <= 1,
            0 <= s <= 1,
            0 <= o <= 1,
            0 <= idx,
    ;
}

/// Every channel ID is the packing of its own components.
pub proof fn lemma_chan_id_decomposes(c: ChanId)
    ensures
        c.idx_part() < CHAN_IDX_LIMIT,
        c.0 == chan_id_bits(c.dir_part(), c.minted_by_part(), c.oneshot_part(), c.idx_part() as int),
{
}

/// Frame type, with conversion from the frame type byte.
#[derive(Debug, Copy, Clone, PartialEq, Eq, Structural)]
pub enum FrameType {
    Version,
    ConnectionControl,
    ChannelControl,
    Message,
    SentUnreliable,
    AckReliable,
    AckNackUnreliable,
    FinishSender,
    CloseReceiver,
    ClosedChannelLost,
}

/// The frame type bytes of the wire protocol: Version 239, ConnectionControl 1, ChannelControl 2,
/// Message 3, SentUnreliable 4, AckReliable 5, AckNackUnreliable 6, FinishSender 7,
/// CloseReceiver 8, ClosedChannelLost 9; each byte reads back as its type, and no other byte is a
/// frame type.
pub proof fn lemma_frame_type_wire_bytes()
    ensures
        FrameType::Version.type_byte() == 239,
        FrameType::ConnectionControl.type_byte() == 1,
        FrameType::ChannelControl.type_byte() == 2,
        FrameType::Message.type_byte() == 3,
        FrameType::SentUnreliable.type_byte() == 4,
        FrameType::AckReliable.type_byte() == 5,
        FrameType::AckNackUnreliable.type_byte() == 6,
        FrameType::FinishSender.type_byte() == 7,
        FrameType::CloseReceiver.type_byte() == 8,
        FrameType::ClosedChannelLost.type_byte() == 9,
        frame_type_of_byte(239) == Some(FrameType::Version),
        frame_type_of_byte(1) == Some(FrameType::ConnectionControl),
        frame_type_of_byte(2) == Some(FrameType::ChannelControl),
        frame_type_of_byte(3) == Some(FrameType::Message),
        frame_type_of_byte(4) == Some(FrameType::SentUnreliable),
        frame_type_of_byte(5) == Some(FrameType::AckReliable),
        frame_type_of_byte(6) == Some(FrameType::AckNackUnreliable),
        frame_type_of_byte(7) == Some(FrameType::FinishSender),
        frame_type_of_byte(8) == Some(FrameType::CloseReceiver),
        frame_type_of_byte(9) == Some(FrameType::ClosedChannelLost),
        forall|b: u8| #[trigger] frame_type_of_byte(b) is None <==> !(b == 239 || (1 <= b && b <= 9)),
{
}

/// Error converting a byte to a frame type.
#[derive(Debug, Copy, Clone, PartialEq, Eq, Structural)]
pub struct InvalidFrameTypeByte(pub u8);

/// The frame type that a byte denotes, if any.
pub open spec fn frame_type_of_byte(b: u8) -> Option<FrameType> {
    if b == 239 {
        Some(FrameType::Version)
    } else if b == 1 {
        Some(FrameType::ConnectionControl)
    } else if b == 2 {
        Some(FrameType::ChannelControl)
    } else if b == 3 {
        Some(FrameType::Message)
    } else if b == 4 {
        Some(FrameType::SentUnreliable)
    } else if b == 5 {
        Some(FrameType::AckReliable)
    } else if b == 6 {
        Some(FrameType::AckNackUnreliable)
    } else if b == 7 {
        Some(FrameType::FinishSender)
    } else if b == 8 {
        Some(FrameType::CloseReceiver)
    } else if b == 9 {
        Some(FrameType::ClosedChannelLost)
    } else {
        None
    }
}

impl FrameType {
    /// The byte that encodes this frame type.
    pub open spec fn type_byte(self) -> u8 {
        match self {
            FrameType::Version => 239,
            FrameType::ConnectionControl => 1,
            FrameType::ChannelControl => 2,
            FrameType::Message => 3,
            FrameType::SentUnreliable => 4,
            FrameType::AckReliable => 5,
            FrameType::AckNackUnreliable => 6,
            FrameType::FinishSender => 7,
            FrameType::CloseReceiver => 8,
            FrameType::ClosedChannelLost => 9,
        }
    }

    /// The byte that encodes this frame type.
    pub fn to_byte(self) -> (b: u8)
        ensures
            b == self.type_byte(),
            frame_type_of_byte(b) == Some(self),
    {
        match self {
            FrameType::Version => 239,
            FrameType::ConnectionControl => 1,
            FrameType::ChannelControl => 2,
            FrameType::Message => 3,
            FrameType::SentUnreliable => 4,
            FrameType::AckReliable => 5,
            FrameType::AckNackUnreliable => 6,
            FrameType::FinishSender => 7,
            FrameType::CloseReceiver => 8,
            FrameType::ClosedChannelLost => 9,
        }
    }

    /// Convert a frame type byte, erroring on an invalid byte.
    pub fn from_byte(b: u8) -> (r: Result<FrameType, InvalidFrameTypeByte>)
        ensures
            match frame_type_of_byte(b) {
                Some(t) => r == Ok::<FrameType, InvalidFrameTypeByte>(t),
                None => r == Err::<FrameType, InvalidFrameTypeByte>(InvalidFrameTypeByte(b)),
            },
    {
        if b == 239 {
            Ok(FrameType::Version)
        } else if b == 1 {
            Ok(FrameType::ConnectionControl)
        } else if b == 2 {
            Ok(FrameType::ChannelControl)
        } else if b == 3 {
            Ok(FrameType::Message)
        } else if b == 4 {
            Ok(FrameType::SentUnreliable)
        } else if b == 5 {
            Ok(FrameType::AckReliable)
        } else if b == 6 {
            Ok(FrameType::AckNackUnreliable)
        } else if b == 7 {
            Ok(FrameType::FinishSender)
        } else if b == 8 {
            Ok(FrameType::CloseReceiver)
        } else if b == 9 {
            Ok(FrameType::ClosedChannelLost)
        } else {
            Err(InvalidFrameTypeByte(b))
        }
    }
}

/// Stream reset error code.
#[derive(Debug, Copy, Clone, PartialEq, Eq, Structural)]
pub enum ResetCode {
    Cancelled,
    Lost,
}

impl ResetCode {
    /// The code's number.
    pub open spec fn code(self) -> u64 {
        match self {
            ResetCode::Cancelled => 1,
            ResetCode::Lost => 2,
        }
    }

    /// The code's number.
    pub fn to_u64(self) -> (r: u64)
        ensures
            r == self.code(),
    {
        match self {
            ResetCode::Cancelled => 1,
            ResetCode::Lost => 2,
        }
    }

    /// The code with this number, if any.
    pub fn from_u64(n: u64) -> (r: Option<ResetCode>)
        ensures
            r matches Some(c) ==> c.code() == n,
            r is None ==> forall|c: ResetCode| c.code() != n,
    {
        if n == 1 {
            Some(ResetCode::Cancelled)
        } else if n == 2 {
            Some(ResetCode::Lost)
        } else {
            None
        }
    }
}

/// QUIC connection close error code.
#[derive(Debug, Copy, Clone, PartialEq, Eq, Structural)]
pub enum CloseCode {
    /// The closing side detected a violation of the protocol.
    ProtoError,
    /// The closing side's application explicitly asked the connection to close.
    Explicit,
    /// The closing side's application-provided (de)serialization logic errored.
    SerdeError,
}

impl CloseCode {
    /// The code's number.
    pub open spec fn code(self) -> u64 {
        match self {
            CloseCode::ProtoError => 1,
            CloseCode::Explicit => 2,
            CloseCode::SerdeError => 3,
        }
    }

    /// The code's number.
    pub fn to_u64(self) -> (r: u64)
        ensures
            r == self.code(),
    {
        match self {
            CloseCode::ProtoError => 1,
            CloseCode::Explicit => 2,
            CloseCode::SerdeError => 3,
        }
    }

    /// The code with this number, if any.
    pub fn from_u64(n: u64) -> (r: Option<CloseCode>)
        ensures
            r matches Some(c) ==> c.code() == n,
            r is None ==> forall|c: CloseCode| c.code() != n,
    {
        if n == 1 {
            Some(CloseCode::ProtoError)
        } else if n == 2 {
            Some(CloseCode::Explicit)
        } else if n == 3 {
            Some(CloseCode::SerdeError)
        } else {
            None
        }
    }
}

/// Error for a byte string that should have been ASCII.
#[derive(Debug, Copy, Clone, PartialEq, Eq, Structural)]
pub struct ExpectedAsciiError;

/// Validate that a byte string is ASCII and view it as a `str`.
pub fn ascii_to_str(b: &[u8]) -> (r: Result<&str, ExpectedAsciiError>)
    ensures
        r is Ok <==> crate::frame::common::all_ascii(b@),
        r matches Ok(s) ==> s@ == crate::frame::common::ascii_chars(b@),
{
    match crate::frame::common::ascii_to_str(b) {
        Some(s) => Ok(s),
        None => Err(ExpectedAsciiError),
    }
}

} // verus!
