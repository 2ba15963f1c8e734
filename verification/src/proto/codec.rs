//! Encoding/decoding things on the wire: the connection side, direction and channel ID types.

pub use crate::codec::common::{ChanId, Dir, Side};
