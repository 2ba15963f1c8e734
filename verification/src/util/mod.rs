//! Small utilities: removing a prefix of a vector, a value that can be taken once, and a
//! first-in first-out queue.

pub mod atomic_take;
pub mod misc;
pub mod small_queue;
