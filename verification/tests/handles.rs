use aqueduct::channel::error::{
    CancelledError, NoReceiversError, RecvError, RecvTerminalState, SendErrorCause,
};
use aqueduct::channel::handles::channel;
use aqueduct::channel::state::{RecvPoll, RecvState, SendPoll, SendState};

#[test]
fn handles_ordered_send_and_recv() {
    let (mut ch, into_sender, into_receiver) = channel::<u32>();
    assert!(into_sender.cancel_on_drop);
    let (sender, _) = into_sender.into_ordered(&mut ch, 2);
    let (receiver, _) = into_receiver.into_receiver(&mut ch);
    let mut s = sender.send(&mut ch, 5);
    assert!(matches!(s.poll(&mut ch).0, SendPoll::Ready(Ok(()), true)));
    let mut r = receiver.recv(&mut ch);
    assert!(matches!(r.poll(&mut ch).0, RecvPoll::Ready(Ok(5), true)));
    assert_eq!(sender.terminal_state(&ch), None);
    assert_eq!(receiver.terminal_state(&ch), None);
}

#[test]
fn handles_finish_ends_receiving() {
    let (mut ch, into_sender, into_receiver) = channel::<u32>();
    let (sender, _) = into_sender.into_ordered(&mut ch, 4);
    let (receiver, _) = into_receiver.into_receiver(&mut ch);
    sender.finish(&mut ch);
    let mut r = receiver.recv(&mut ch);
    assert!(matches!(r.poll(&mut ch).0, RecvPoll::Ready(Err(RecvState::Finished), false)));
    assert_eq!(receiver.terminal_state(&ch), Some(RecvTerminalState::Finished));
}

#[test]
fn handles_unordered_counts_one_more_sender() {
    let (mut ch, into_sender, _into_receiver) = channel::<u32>();
    let (sender, _) = into_sender.into_unordered(&mut ch, 1);
    let second = sender.clone(&mut ch);
    // the unordered conversion keeps an extra sender counted, so finishing
    // both handles does not finish the channel
    sender.with_cancel_on_drop(false).drop(&mut ch);
    second.finish(&mut ch);
    assert_eq!(ch.get_send_state(), SendState::Normal);
}

#[test]
fn handles_drop_with_cancel_cancels() {
    let (mut ch, into_sender, into_receiver) = channel::<u32>();
    let (receiver, _) = into_receiver.into_receiver(&mut ch);
    into_sender.drop(&mut ch);
    assert_eq!(receiver.terminal_state(&ch), Some(RecvTerminalState::Error(RecvError::Cancelled(CancelledError))));
}

#[test]
fn handles_drop_without_cancel_finishes_when_last() {
    let (mut ch, into_sender, into_receiver) = channel::<u32>();
    let (receiver, _) = into_receiver.into_receiver(&mut ch);
    let mut into_sender = into_sender;
    into_sender.set_cancel_on_drop(false);
    into_sender.drop(&mut ch);
    assert_eq!(receiver.terminal_state(&ch), Some(RecvTerminalState::Finished));
}

#[test]
fn handles_last_receiver_dropped() {
    let (mut ch, into_sender, into_receiver) = channel::<u32>();
    let (sender, _) = into_sender.into_ordered(&mut ch, 1);
    let (receiver, _) = into_receiver.into_receiver(&mut ch);
    let other = receiver.clone(&mut ch);
    receiver.drop(&mut ch);
    assert_eq!(sender.terminal_state(&ch), None);
    other.drop(&mut ch);
    assert_eq!(sender.terminal_state(&ch), Some(SendErrorCause::NoReceivers(NoReceiversError)));
}

#[test]
fn handles_sender_cancel() {
    let (mut ch, into_sender, into_receiver) = channel::<u32>();
    let (sender, _) = into_sender.into_ordered(&mut ch, 1);
    let (receiver, _) = into_receiver.into_receiver(&mut ch);
    sender.cancel(&mut ch);
    assert_eq!(sender.terminal_state(&ch), Some(SendErrorCause::Cancelled(CancelledError)));
    assert_eq!(receiver.terminal_state(&ch), Some(RecvTerminalState::Error(RecvError::Cancelled(CancelledError))));
}

#[test]
fn handles_counts_and_node_ids() {
    let (mut ch, into_sender, into_receiver) = channel::<u32>();
    assert_eq!(ch.get_send_count(), 1);
    assert_eq!(ch.get_recv_count(), 1);
    assert_eq!(ch.get_next_node_id(), 0);
    let (sender, _) = into_sender.into_ordered(&mut ch, 1);
    let (receiver, _) = into_receiver.into_receiver(&mut ch);
    let _s = sender.send(&mut ch, 1);
    let _r = receiver.recv(&mut ch);
    assert_eq!(ch.get_next_node_id(), 2);
    let _other = sender.clone(&mut ch);
    assert_eq!(ch.get_send_count(), 2);
}
