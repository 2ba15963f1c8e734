//! The earlier channel design: channel IDs, channel errors, and the channel state with its queues
//! of waiting send and recv operations.

pub mod channel;
pub mod error;
pub mod frame;
pub mod oneshot;
pub mod signal;
