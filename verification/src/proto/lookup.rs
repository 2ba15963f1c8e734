//! What a frame does for a channel that has no state on the local side.
use super::chan_id_mint::ChanIdMint;
use super::per_chan_id_bit::{PerIsOneshot, PerSenderSide};
use super::range_set::RangeSetU64;
use super::receiver::ProtocolError;
use crate::frame::common::{ChanId, Dir, Side};
use vstd::prelude::*;

verus! {

/// What to do with a frame for a channel that has no state here.
#[derive(Debug, Copy, Clone, PartialEq, Eq, Structural)]
pub enum AbsentChannel {
    /// Create the channel's state with defaults.
    Create,
    /// The channel has been removed: ignore the frame.
    Reset,
}

/// The removed indexes recorded for the sender side and oneshot flag of `chan_id`.
pub open spec fn removed_for(removed: PerSenderSide<PerIsOneshot<RangeSetU64>>, chan_id: ChanId) -> RangeSetU64 {
    removed.0@[if chan_id.sender_bit() { 1int } else { 0int }].0@[if chan_id.oneshot_bit() { 1int } else { 0int }]
}

/// Decide for a frame on `chan_id` that has no state here. A channel created by the local side
/// must have been minted (else the frame breaks the protocol) and has since been removed; one
/// created by the remote side is reset if its index was recorded as removed, else created.
pub fn absent_channel(
    mint: &ChanIdMint,
    removed: &PerSenderSide<PerIsOneshot<RangeSetU64>>,
    chan_id: ChanId,
) -> (r: Result<AbsentChannel, ProtocolError>)
    requires
        removed_for(*removed, chan_id).wf(),
    ensures
        chan_id.creator_bit() == mint.side().0 ==> r == (if chan_id.idx_part() < mint.next_idx(
            if chan_id.sender_bit() { Dir::ToClient } else { Dir::ToServer },
            chan_id.oneshot_bit(),
        ) {
            Ok::<AbsentChannel, ProtocolError>(AbsentChannel::Reset)
        } else {
            Err::<AbsentChannel, ProtocolError>(ProtocolError::ChannelNeverCreated)
        }),
        chan_id.creator_bit() != mint.side().0 ==> r == (if removed_for(*removed, chan_id)@.contains(
            chan_id.idx_part(),
        ) {
            Ok::<AbsentChannel, ProtocolError>(AbsentChannel::Reset)
        } else {
            Ok::<AbsentChannel, ProtocolError>(AbsentChannel::Create)
        }),
{
    if chan_id.creator().0 == mint.get_side().0 {
        if mint.has_minted(chan_id) {
            Ok(AbsentChannel::Reset)
        } else {
            Err(ProtocolError::ChannelNeverCreated)
        }
    } else {
        let set = removed.index(chan_id).index(chan_id);
        if set.contains(chan_id.idx()) {
            Ok(AbsentChannel::Reset)
        } else {
            Ok(AbsentChannel::Create)
        }
    }
}

/// Check that a Message frame arrived on a channel that the local side receives on.
pub fn check_message_channel(local: Side, chan_id: ChanId) -> (r: Result<(), ProtocolError>)
    ensures
        r == (if chan_id.sender_bit() == local.0 {
            Err::<(), ProtocolError>(ProtocolError::MessageOnLocalSender)
        } else {
            Ok::<(), ProtocolError>(())
        }),
{
    if chan_id.sender().0 == local.0 {
        Err(ProtocolError::MessageOnLocalSender)
    } else {
        Ok(())
    }
}

/// Check a channel attached to a received message and mark it as attached: the remote side must
/// have created it, and it must not have been attached to a message before.
pub fn on_attached_channel(local: Side, chan_id: ChanId, received_creating_message: &mut bool) -> (r: Result<(), ProtocolError>)
    ensures
        chan_id.creator_bit() == local.0 ==> (r == Err::<(), ProtocolError>(
            ProtocolError::AttachedChannelCreatedLocally,
        ) && *final(received_creating_message) == *old(received_creating_message)),
        chan_id.creator_bit() != local.0 && *old(received_creating_message) ==> (r == Err::<(), ProtocolError>(
            ProtocolError::ChannelAttachedTwice,
        ) && *final(received_creating_message)),
        chan_id.creator_bit() != local.0 && !*old(received_creating_message) ==> (r == Ok::<(), ProtocolError>(())
            && *final(received_creating_message)),
{
    if chan_id.creator().0 == local.0 {
        return Err(ProtocolError::AttachedChannelCreatedLocally);
    }
    if *received_creating_message {
        return Err(ProtocolError::ChannelAttachedTwice);
    }
    *received_creating_message = true;
    Ok(())
}

} // verus!
