//! Encoding and decoding of Aqueduct frames.

pub mod common;
pub mod typed_chan_id;
pub mod varint;
pub mod write;
pub mod read;
pub mod laws;
