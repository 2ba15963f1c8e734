//! Shared types of the frame coding, keyed by connection side and direction.

pub mod common;
pub mod write;
