use aqueduct::channel::api::{self, map_recv_result, map_send_result, map_try_recv_result};
use aqueduct::channel::error::{
    CancelledError, NoReceiversError, RecvError, RecvTerminalState, SendErrorCause, TryRecvError,
    WouldBlockError,
};
use aqueduct::channel::node_queue::{NodeHandle, NodeQueue};
use aqueduct::channel::seg_queue::{elem_size_to_cap, SegQueue};
use aqueduct::channel::state::{
    recv_terminal_state, send_error, Channel, RecvPoll, RecvState, SendPoll, SendState,
};

#[test]
fn seg_queue_fifo_and_cap() {
    let mut q = SegQueue::new();
    q.push(1);
    q.push(2);
    assert_eq!(q.len(), 2);
    assert_eq!(q.pop(), Some(1));
    assert_eq!(q.pop(), Some(2));
    assert_eq!(q.pop(), None);
    assert_eq!(elem_size_to_cap(0), usize::MAX);
    assert_eq!(elem_size_to_cap(8), 128);
    assert_eq!(elem_size_to_cap(4096), 1);
}

#[test]
fn node_queue_wakes_and_purges() {
    let mut q = NodeQueue::new();
    let mut a = NodeHandle::new(1);
    let mut b = NodeHandle::new(2);
    q.push(&mut a);
    q.push(&mut b);
    assert!(q.is_front(&a) && !q.is_front(&b));
    assert_eq!(q.wake_front(), None);
    q.set_waker(&a, true);
    q.set_waker(&b, true);
    assert_eq!(q.wake_front(), Some(1));
    assert_eq!(q.wake_front(), None);
    q.remove(&mut a);
    assert!(q.is_front(&b));
    assert_eq!(q.purge(), vec![2]);
    assert!(q.is_purged());
    assert_eq!(q.purge(), Vec::<u64>::new());
}

#[test]
fn send_then_recv_in_order() {
    let mut ch = Channel::new();
    let mut s1 = api::send(&mut ch, "a");
    let mut s2 = api::send(&mut ch, "b");
    assert!(matches!(s1.poll(&mut ch).0, SendPoll::Ready(Ok(()), true)));
    assert!(matches!(s2.poll(&mut ch).0, SendPoll::Ready(Ok(()), true)));
    assert_eq!(ch.elems_len(), 2);
    let mut r = api::recv(&mut ch);
    match r.poll(&mut ch).0 {
        RecvPoll::Ready(Ok(x), true) => assert_eq!(x, "a"),
        _ => panic!("expected the first element"),
    }
    let mut r = api::recv(&mut ch);
    match r.poll(&mut ch).0 {
        RecvPoll::Ready(Ok(x), true) => assert_eq!(x, "b"),
        _ => panic!("expected the second element"),
    }
}

#[test]
fn bounded_send_waits_and_is_woken() {
    let mut ch = Channel::new();
    ch.set_bound(1);
    let mut s1 = api::send(&mut ch, 1u8);
    let mut s2 = api::send(&mut ch, 2u8);
    assert!(matches!(s1.poll(&mut ch).0, SendPoll::Ready(Ok(()), true)));
    assert!(matches!(s2.poll(&mut ch).0, SendPoll::Pending));
    let mut r = api::recv(&mut ch);
    let (p, woken) = r.poll(&mut ch);
    assert!(matches!(p, RecvPoll::Ready(Ok(1), true)));
    // the waiting send (node 1) is woken as backpressure is relieved
    assert_eq!(woken, vec![1]);
    assert!(matches!(s2.poll(&mut ch).0, SendPoll::Ready(Ok(()), true)));
}

#[test]
fn recv_waits_until_sent() {
    let mut ch = Channel::new();
    let mut r = api::recv(&mut ch);
    assert!(matches!(r.poll(&mut ch).0, RecvPoll::Pending));
    let mut s = api::send(&mut ch, 7u32);
    let (_, woken) = s.poll(&mut ch);
    // the waiting recv (node 0) is woken as the channel becomes non-empty
    assert_eq!(woken, vec![0]);
    assert!(matches!(r.poll(&mut ch).0, RecvPoll::Ready(Ok(7), true)));
}

#[test]
fn finish_then_drain_then_finished() {
    let mut ch = Channel::new();
    let mut s = api::send(&mut ch, 1i32);
    s.poll(&mut ch);
    api::finish(&mut ch);
    assert!(ch.get_recv_state() == RecvState::Normal);
    let mut r = api::recv(&mut ch);
    assert!(matches!(r.poll(&mut ch).0, RecvPoll::Ready(Ok(1), true)));
    assert!(ch.get_recv_state() == RecvState::Finished);
    let mut r = api::recv(&mut ch);
    match r.poll(&mut ch).0 {
        RecvPoll::Ready(Err(st), false) => assert_eq!(map_recv_result::<i32>(Err(st)), Ok(None)),
        _ => panic!("expected the finished state"),
    }
}

#[test]
fn cancel_is_sticky() {
    let mut ch = Channel::<u8>::new();
    let mut r = api::recv(&mut ch);
    r.poll(&mut ch);
    let woken = api::cancel(&mut ch);
    assert_eq!(woken, vec![0]);
    assert!(ch.get_send_state() == SendState::Cancelled);
    ch.set_send_error(SendState::NoReceivers);
    assert!(ch.get_send_state() == SendState::Cancelled);
    let mut s = api::send(&mut ch, 3u8);
    match s.poll(&mut ch).0 {
        SendPoll::Ready(Err((st, msg)), false) => {
            let e = map_send_result(Err((st, msg))).err().unwrap();
            assert_eq!(e.msg, 3);
            assert_eq!(e.cause, SendErrorCause::Cancelled(CancelledError));
        }
        _ => panic!("expected a cancelled error"),
    }
    assert!(matches!(r.poll(&mut ch).0, RecvPoll::Ready(Err(RecvState::Cancelled), true)));
}

#[test]
fn last_receiver_dropped_means_no_receivers() {
    let mut ch = Channel::<u8>::new();
    api::clone_receiver(&mut ch);
    api::drop_receiver(&mut ch);
    assert!(ch.get_send_state() == SendState::Normal);
    api::drop_receiver(&mut ch);
    assert!(ch.get_send_state() == SendState::NoReceivers);
    assert_eq!(send_error(SendState::NoReceivers), Some(SendErrorCause::NoReceivers(NoReceiversError)));
}

#[test]
fn last_sender_dropped_finishes() {
    let mut ch = Channel::<u8>::new();
    api::drop_sender(&mut ch, false);
    assert!(ch.get_recv_state() == RecvState::Finished);
    let mut ch = Channel::<u8>::new();
    api::drop_sender(&mut ch, true);
    assert!(ch.get_recv_state() == RecvState::Cancelled);
}

#[test]
fn cancelling_a_send_gives_the_element_back_and_wakes_the_next() {
    let mut ch = Channel::new();
    ch.set_bound(0);
    let mut s1 = api::send(&mut ch, 'x');
    let mut s2 = api::send(&mut ch, 'y');
    assert!(matches!(s1.poll(&mut ch).0, SendPoll::Pending));
    assert!(matches!(s2.poll(&mut ch).0, SendPoll::Pending));
    let (back, woken) = s1.cancel(&mut ch);
    assert_eq!(back, Some(('x', true)));
    // the channel is at its bound, so the next send is not woken
    assert_eq!(woken, Vec::<u64>::new());
    assert!(s1.is_terminated());
    s2.drop_wakers(&mut ch);
    assert_eq!(s2.cancel(&mut ch).0, Some(('y', true)));
}

#[test]
fn recv_error_mappings() {
    assert_eq!(recv_terminal_state(RecvState::Normal), None);
    assert_eq!(recv_terminal_state(RecvState::Finished), Some(RecvTerminalState::Finished));
    assert_eq!(map_recv_result::<u8>(Err(RecvState::Cancelled)), Err(RecvError::Cancelled(CancelledError)));
    assert_eq!(map_try_recv_result::<u8>(Err(())), Err(TryRecvError::WouldBlock(WouldBlockError)));
    assert_eq!(map_try_recv_result(Ok(Ok(5u8))), Ok(Some(5)));
    let e: SendErrorCause = CancelledError.into();
    assert_eq!(e, SendErrorCause::Cancelled(CancelledError));
    let t: TryRecvError = RecvError::Cancelled(CancelledError).into();
    assert_eq!(t, TryRecvError::Terminal(RecvError::Cancelled(CancelledError)));
}

fn run_against_deque<const N: usize>(pattern: &[bool]) {
    let mut q: SegQueue<[u8; N]> = SegQueue::new();
    let mut d: std::collections::VecDeque<[u8; N]> = std::collections::VecDeque::new();
    let mut next: u8 = 0;
    for &push in pattern {
        if push {
            let x = [next; N];
            next = next.wrapping_add(1);
            q.push(x);
            d.push_back(x);
        } else {
            assert_eq!(q.pop(), d.pop_front());
        }
        assert_eq!(q.len(), d.len());
    }
}

#[test]
fn seg_queue_runs_like_a_deque() {
    let pattern = [true, true, false, true, false, false, false, true, true, true, false];
    run_against_deque::<0>(&pattern);
    run_against_deque::<3>(&pattern);
    run_against_deque::<4096>(&pattern);
    let long: Vec<bool> = (0..600).map(|i| i % 3 != 2).collect();
    run_against_deque::<1>(&long);
}
