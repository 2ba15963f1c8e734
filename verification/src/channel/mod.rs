//! Channels: error types, the element queue, the queues of waiting operations, and the channel
//! state machine.

pub mod state;
pub mod api;
pub mod error;
pub mod handles;
pub mod node_queue;
pub mod seg_queue;
