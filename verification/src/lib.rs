//! Aqueduct: channels that can be sent within channels, locally or over QUIC.
//!
//! This crate holds the verified core of the protocol: channel ID encoding, the wire format of
//! frames, acknowledgement bookkeeping, the channel queue state machine and key encodings.

pub mod frame;
pub mod codec;
pub mod proto;
pub mod channel;
pub mod aqua;
pub mod util;
pub mod qkai;
pub mod multibytes;
