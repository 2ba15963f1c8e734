//! Protocol logic: channel ID minting, acknowledgement bookkeeping and range sets.

pub mod codec;
pub mod ack;
pub mod ack_range;
pub mod chan_id_mint;
pub mod lookup;
pub mod per_chan_id_bit;
pub mod range_set;
pub mod receiver;
pub mod sender;
