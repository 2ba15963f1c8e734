//! Pairs of values indexed by one bit of a channel ID.
use crate::frame::common::{ChanId, Side};
use vstd::prelude::*;

verus! {

/// A value for each side that may create a channel.
#[derive(Default)]
pub struct PerCreatorSide<T>(pub [T; 2]);

impl<T> PerCreatorSide<T> {
    /// The value for channels created by `creator`.
    pub fn by_creator(&self, creator: Side) -> (r: &T)
        ensures
            *r == self.0@[if creator.0 { 1int } else { 0int }],
    {
        if creator.0 {
            &self.0[1]
        } else {
            &self.0[0]
        }
    }

    /// The value for the creator of channel `idx`.
    pub fn index(&self, idx: ChanId) -> (r: &T)
        ensures
            *r == self.0@[if idx.creator_bit() { 1int } else { 0int }],
    {
        self.by_creator(idx.creator())
    }
}

/// A value for each side that may send on a channel.
#[derive(Default)]
pub struct PerSenderSide<T>(pub [T; 2]);

impl<T> PerSenderSide<T> {
    /// The value for channels that `sender` sends on.
    pub fn by_sender(&self, sender: Side) -> (r: &T)
        ensures
            *r == self.0@[if sender.0 { 1int } else { 0int }],
    {
        if sender.0 {
            &self.0[1]
        } else {
            &self.0[0]
        }
    }

    /// The value for the sender of channel `idx`.
    pub fn index(&self, idx: ChanId) -> (r: &T)
        ensures
            *r == self.0@[if idx.sender_bit() { 1int } else { 0int }],
    {
        self.by_sender(idx.sender())
    }
}

/// A value for multishot channels and one for oneshot channels.
#[derive(Default)]
pub struct PerIsOneshot<T>(pub [T; 2]);

impl<T> PerIsOneshot<T> {
    /// The value for channels with the given oneshot flag.
    pub fn by_is_oneshot(&self, is_oneshot: bool) -> (r: &T)
        ensures
            *r == self.0@[if is_oneshot { 1int } else { 0int }],
    {
        if is_oneshot {
            &self.0[1]
        } else {
            &self.0[0]
        }
    }

    /// The value for the oneshot flag of channel `idx`.
    pub fn index(&self, idx: ChanId) -> (r: &T)
        ensures
            *r == self.0@[if idx.oneshot_bit() { 1int } else { 0int }],
    {
        self.by_is_oneshot(idx.is_oneshot())
    }
}

} // verus!
