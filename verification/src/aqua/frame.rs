//! Channel IDs on the wire.
use crate::codec::common::lemma_unpack;
use vstd::prelude::*;

verus! {

/// A channel ID: bit 0 the direction, bit 1 the initiating side, bit 2 the plurality, and the
/// high bits the index.
#[derive(Debug, Copy, Clone, PartialEq, Eq, Hash, Structural)]
pub struct ChannelId(pub u64);

/// Direction of travel of a channel's messages.
#[derive(Debug, Copy, Clone, PartialEq, Eq, Structural)]
pub enum Direction {
    ToServer,
    ToClient,
}

/// A side of a connection.
#[derive(Debug, Copy, Clone, PartialEq, Eq, Structural)]
pub enum Side {
    Client,
    Server,
}

/// Whether a channel carries many messages or one.
#[derive(Debug, Copy, Clone, PartialEq, Eq, Structural)]
pub enum Plurality {
    Multiple,
    Oneshot,
}

/// The packed integer of a channel ID with the given components.
pub open spec fn channel_id_bits(direction: Direction, initiator: Side, plurality: Plurality, index: int) -> int {
    index * 8 + (if plurality == Plurality::Oneshot { 4int } else { 0int }) + (if initiator
        == Side::Server {
        2int
    } else {
        0int
    }) + (if direction == Direction::ToClient {
        1int
    } else {
        0int
    })
}

impl ChannelId {
    /// Pack the components into a channel ID; the index must fit in 61 bits.
    pub fn new(direction: Direction, initiator: Side, plurality: Plurality, index: u64) -> (r: Self)
        requires
            index < 0x2000_0000_0000_0000,
        ensures
            r.0 == channel_id_bits(direction, initiator, plurality, index as int),
            r.direction_spec() == direction,
            r.initiator_spec() == initiator,
            r.plurality_spec() == plurality,
            r.0 / 8 == index,
    {
        let d: u64 = match direction {
            Direction::ToServer => 0,
            Direction::ToClient => 1,
        };
        let i: u64 = match initiator {
            Side::Client => 0,
            Side::Server => 2,
        };
        let p: u64 = match plurality {
            Plurality::Multiple => 0,
            Plurality::Oneshot => 4,
        };
        proof {
            lemma_unpack(index as int, (p / 4) as int, (i / 2) as int, d as int);
        }
        ChannelId(index * 8 + p + i + d)
    }

    /// The direction bit.
    pub open spec fn direction_spec(self) -> Direction {
        if self.0 % 2 == 0 {
            Direction::ToServer
        } else {
            Direction::ToClient
        }
    }

    /// The initiator bit.
    pub open spec fn initiator_spec(self) -> Side {
        if (self.0 / 2) % 2 == 0 {
            Side::Client
        } else {
            Side::Server
        }
    }

    /// The plurality bit.
    pub open spec fn plurality_spec(self) -> Plurality {
        if (self.0 / 4) % 2 == 0 {
            Plurality::Multiple
        } else {
            Plurality::Oneshot
        }
    }

    /// The direction of the channel.
    pub fn direction(self) -> (r: Direction)
        ensures
            r == self.direction_spec(),
    {
        if self.0 % 2 == 0 {
            Direction::ToServer
        } else {
            Direction::ToClient
        }
    }

    /// The side that initiated the channel.
    pub fn initiator(self) -> (r: Side)
        ensures
            r == self.initiator_spec(),
    {
        if (self.0 / 2) % 2 == 0 {
            Side::Client
        } else {
            Side::Server
        }
    }

    /// Whether the channel carries many messages or one.
    pub fn plurality(self) -> (r: Plurality)
        ensures
            r == self.plurality_spec(),
    {
        if (self.0 / 4) % 2 == 0 {
            Plurality::Multiple
        } else {
            Plurality::Oneshot
        }
    }
}

} // verus!
