use aqueduct::aqua::channel::{Channel, MetaInfo, Semantics};
use aqueduct::aqua::error::{
    RecvError, SendError, SendErrorReason, TryRecvError, TrySendError, TrySendErrorReason,
};
use aqueduct::aqua::frame::{ChannelId, Direction, Plurality, Side};
use aqueduct::aqua::signal::{Signal, SignalState, TimeoutKind, WaitStep};

fn meta(sem: Semantics) -> MetaInfo {
    MetaInfo { semantics: Some(sem), networked: false, error: None }
}

#[test]
fn channel_id_components() {
    let c = ChannelId::new(Direction::ToClient, Side::Server, Plurality::Oneshot, 9);
    assert_eq!(c.0, 9 * 8 + 4 + 2 + 1);
    assert_eq!(c.direction(), Direction::ToClient);
    assert_eq!(c.initiator(), Side::Server);
    assert_eq!(c.plurality(), Plurality::Oneshot);
    let d = ChannelId::new(Direction::ToServer, Side::Client, Plurality::Multiple, 0);
    assert_eq!(d, ChannelId(0));
}

#[test]
fn error_conversions() {
    let e = TrySendError::from(SendError { message: 5u8, reason: SendErrorReason::Cancelled });
    assert_eq!(e.reason, TrySendErrorReason::Cancelled);
    assert!(!e.is_temporary());
    assert!(TrySendErrorReason::NotReady.is_temporary());
    assert_eq!(TryRecvError::from(RecvError::ConnectionLost), TryRecvError::ConnectionLost);
    assert!(TryRecvError::NotReady.is_temporary());
}

#[test]
fn bounded_reliable_send_and_recv() {
    let mut ch = Channel::new(meta(Semantics::Reliable { ordered: true, bound: Some(1) }), 1, 1);
    let mut s1 = ch.push_send_node();
    let mut s2 = ch.push_send_node();
    let mut e1 = Some(10u8);
    let mut e2 = Some(20u8);
    let (r2, _) = s2.poll(&mut ch, &mut e2);
    assert!(r2.is_none()); // not at the front
    let (r1, woken) = s1.poll(&mut ch, &mut e1);
    assert_eq!(r1, Some(Ok(())));
    assert_eq!(woken, vec![1]); // the send behind it is woken
    let (r2, _) = s2.poll(&mut ch, &mut e2);
    assert!(r2.is_none()); // at capacity
    let mut r = ch.push_recv_node();
    let (got, woken) = r.poll(&mut ch);
    assert_eq!(got, Some(Ok(Some(10))));
    assert_eq!(woken, vec![1]); // capacity relieved
    let (r2, _) = s2.poll(&mut ch, &mut e2);
    assert_eq!(r2, Some(Ok(())));
}

#[test]
fn unreliable_evicts_front() {
    let mut ch = Channel::new(meta(Semantics::Unreliable { bound: Some(1) }), 1, 1);
    for x in [1u8, 2] {
        let mut s = ch.push_send_node();
        let mut e = Some(x);
        assert_eq!(s.poll(&mut ch, &mut e).0, Some(Ok(())));
    }
    let mut r = ch.push_recv_node();
    assert_eq!(r.poll(&mut ch).0, Some(Ok(Some(2))));
}

#[test]
fn no_senders_means_finished_and_errors_are_sticky() {
    let mut ch = Channel::<u8>::new(meta(Semantics::Reliable { ordered: false, bound: None }), 1, 1);
    let mut r = ch.push_recv_node();
    assert_eq!(r.poll(&mut ch).0, None);
    assert_eq!(ch.decrement_sender_count(), vec![0]);
    assert_eq!(r.poll(&mut ch).0, Some(Ok(None)));
    let woken = ch.enter_errored_state(SendErrorReason::ConnectionLost);
    assert!(woken.is_empty());
    let mut r = ch.push_recv_node();
    assert_eq!(r.poll(&mut ch).0, Some(Err(RecvError::ConnectionLost)));
    assert!(ch.enter_errored_state(SendErrorReason::Cancelled).is_empty());
    let mut s = ch.push_send_node();
    let mut e = Some(1u8);
    assert_eq!(s.poll(&mut ch, &mut e).0, Some(Err(SendError { message: 1, reason: SendErrorReason::ConnectionLost })));
}

#[test]
fn last_receiver_dropped() {
    let mut ch = Channel::<u8>::new(meta(Semantics::Reliable { ordered: false, bound: None }), 1, 1);
    let mut s = ch.push_send_node();
    ch.decrement_receiver_count();
    let mut e = Some(4u8);
    assert_eq!(s.poll(&mut ch, &mut e).0, Some(Err(SendError { message: 4, reason: SendErrorReason::NoReceivers })));
    assert_eq!(s.remove(&mut ch).0, false);
}

#[test]
fn signal_protocol() {
    let mut s = Signal::new();
    assert!(!s.notify());
    assert_eq!(s.state, SignalState::Notified);
    assert_eq!(s.begin_wait(), Some(false));
    assert_eq!(s.begin_wait(), None);
    assert_eq!(s.wait_step(TimeoutKind::Never), WaitStep::Block);
    assert!(s.notify());
    assert_eq!(s.wait_step(TimeoutKind::Never), WaitStep::Exit(false));
    assert_eq!(s.begin_wait(), None);
    assert_eq!(s.wait_step(TimeoutKind::Immediate), WaitStep::Exit(true));
    assert_eq!(s.begin_wait(), None);
    assert_eq!(s.wait_step(TimeoutKind::After), WaitStep::BlockTimeout);
    assert!(s.timed_out());
    assert_eq!(s.state, SignalState::Empty);
}
