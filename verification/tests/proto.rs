use aqueduct::codec::write::PosNegRanges;
use aqueduct::frame::common::{ChanId, Side};
use aqueduct::proto::ack::{AckError, ReceiverUnreliableAckManager};
use aqueduct::proto::ack_range::{merge_sorted_ranges, TreeAckRanges, VecAckRanges};
use aqueduct::proto::chan_id_mint::ChanIdMint;
use aqueduct::proto::per_chan_id_bit::{PerCreatorSide, PerIsOneshot, PerSenderSide};
use aqueduct::proto::range_set::RangeSetU64;
use aqueduct::proto::lookup::{absent_channel, check_message_channel, on_attached_channel, AbsentChannel};
use aqueduct::proto::receiver::{ProtocolError, ReceiverState, UnreliableMessageOutcome};
use aqueduct::proto::sender::{Guarantees, MessageNumbering, UnreliableCounters};

#[test]
fn range_set_insert_merges_and_reports_intersection() {
    let mut s = RangeSetU64::new();
    assert!(s.is_empty());
    assert!(!s.insert(5, 7));
    assert!(!s.insert(1, 2));
    assert_eq!(s.iter(), vec![(1, 2), (5, 7)]);
    // touching ranges merge
    assert!(!s.insert(3, 4));
    assert_eq!(s.iter(), vec![(1, 7)]);
    assert!(s.insert(6, 10));
    assert_eq!(s.iter(), vec![(1, 10)]);
    assert!(s.contains(1) && s.contains(10) && !s.contains(0) && !s.contains(11));
    assert!(!s.insert(20, 20));
    assert!(s.intersects(9, 12) && !s.intersects(11, 19));
    s.clear();
    assert!(s.is_empty());
}

#[test]
fn range_set_delete_lt_follows_its_contract() {
    let mut s = RangeSetU64::new();
    s.insert(1, 2);
    s.insert(5, 6);
    let e = s.first_range_entry().unwrap();
    assert_eq!((e.start(), e.end()), (1, 2));
    // the whole first range lies below 6: both elements are deleted
    assert_eq!(e.delete_lt(&mut s, 6), 2);
    assert_eq!(s.iter(), vec![(5, 6)]);
    let e = s.first_range_entry().unwrap();
    // only 5 lies below 6
    assert_eq!(e.delete_lt(&mut s, 6), 1);
    assert_eq!(s.iter(), vec![(6, 6)]);
}

#[test]
fn range_set_min_absent() {
    let mut s = RangeSetU64::new();
    assert_eq!(s.min_absent(), 0);
    s.insert(0, 3);
    s.insert(5, 5);
    assert_eq!(s.min_absent(), 4);
}

#[test]
fn vec_ack_ranges_add_point_extends() {
    let mut v = VecAckRanges::new();
    for n in [5u64, 6, 7, 1, 2] {
        v.add_point(n);
    }
    assert_eq!(v.sort_merge_drain(), vec![Ok((1, 2)), Ok((5, 7))]);
    assert!(v.is_empty());
}

#[test]
fn vec_ack_ranges_merge_contiguous_and_detect_overlap() {
    let mut v = VecAckRanges::new();
    for n in [3u64, 1, 2] {
        v.add_point(n);
    }
    assert_eq!(v.sort_merge_drain(), vec![Ok((1, 3))]);
    let mut v = VecAckRanges::new();
    v.add_point(4);
    v.add_point(4);
    assert_eq!(v.sort_merge_drain(), vec![Err(())]);
    assert_eq!(merge_sorted_ranges(&vec![(0, 5), (3, 3), (7, 7)]), vec![Err(()), Ok((7, 7))]);
}

#[test]
fn tree_ack_ranges() {
    let mut t = TreeAckRanges::new();
    assert_eq!(t.first_unacked_point(), 0);
    assert_eq!(t.add_range(2, 3), Ok(()));
    assert_eq!(t.first_unacked_point(), 0);
    assert_eq!(t.add_range(0, 1), Ok(()));
    assert_eq!(t.first_unacked_point(), 4);
    assert_eq!(t.add_range(3, 5), Err(()));
    assert_eq!(t.ranges(), vec![(0, 3)]);
}

#[test]
fn chan_id_mint_never_mints_the_entrypoint() {
    let mut client = ChanIdMint::new(Side::client());
    let s = client.mint_local_sender();
    assert_eq!(s.idx(), 1);
    let id: ChanId = s.into();
    assert!(id != ChanId::entrypoint());
    assert!(id.creator() == Side::client() && id.sender() == Side::client() && !id.is_oneshot());
    let r = client.mint_local_receiver();
    let rid: ChanId = r.into();
    assert_eq!(rid.idx(), 0);
    assert!(rid.sender() == Side::server());
    let o = client.mint_local_sender_oneshot();
    assert_eq!(o.idx(), 0);
    assert_eq!(client.mint_local_sender().idx(), 2);
    let mut server = ChanIdMint::new(Side::server());
    assert_eq!(server.mint_local_sender().idx(), 0);
    assert_eq!(server.mint_local_receiver_oneshot().idx(), 0);
}

#[test]
fn per_chan_id_bit_lookup() {
    let p = PerCreatorSide([10u32, 20]);
    assert_eq!(*p.by_creator(Side::server()), 20);
    assert_eq!(*p.index(ChanId(1)), 20);
    let q = PerSenderSide(["c", "s"]);
    assert_eq!(*q.by_sender(Side::client()), "c");
    let o = PerIsOneshot([false, true]);
    assert!(*o.by_is_oneshot(true));
    assert!(*o.index(ChanId(4)));
}

#[test]
fn reliable_ack_deltas() {
    let mut r = ReceiverState::new(true);
    r.reliable_received_unacked.insert(0, 2);
    r.reliable_received_unacked.insert(5, 5);
    let (deltas, close) = r.reliable_ack().ok().unwrap().unwrap();
    // acked 0..=2 (length 3), then a gap of 2 (minus one), then a range of length 1 (minus one)
    assert_eq!(deltas, vec![3, 1, 0]);
    assert!(!close);
    assert!(r.reliable_received_acked.contains(5) && r.reliable_received_unacked.is_empty());
    // a duplicate is an error
    r.reliable_received_unacked.insert(1, 1);
    assert_eq!(r.reliable_ack().err(), Some(ProtocolError::DuplicateReliableMessage));
}

#[test]
fn reliable_ack_without_range_at_bound() {
    let mut r = ReceiverState::new(true);
    r.reliable_received_unacked.insert(2, 3);
    let (deltas, _) = r.reliable_ack().ok().unwrap().unwrap();
    assert_eq!(deltas, vec![0, 1, 1]);
}

#[test]
fn unreliable_ack_nack_deltas() {
    let mut r = ReceiverState::new(true);
    r.unreliable_received_unacked.insert(2, 3);
    let (deltas, respawn, close) = r.unreliable_ack_nack(6).unwrap();
    // no ack at 0, nack 0..=1, ack 2..=3, nack 4..=5
    assert_eq!(deltas, vec![0, 1, 1, 1]);
    assert_eq!(respawn, None);
    assert!(!close);
    assert_eq!(r.unreliable_ack_nacked_lt, 6);
    assert!(r.unreliable_received_unacked.is_empty());
}

#[test]
fn unreliable_ack_nack_starting_with_ack() {
    let mut r = ReceiverState::new(true);
    r.unreliable_received_unacked.insert(0, 1);
    r.unreliable_received_unacked.insert(8, 9);
    let (deltas, respawn, _) = r.unreliable_ack_nack(4).unwrap();
    assert_eq!(deltas, vec![2, 1]);
    // the new bound is the greater of the least number absent (0) and the total declared (0)
    assert_eq!(respawn, Some(0));
}

#[test]
fn receiver_frames_and_closing() {
    let mut r = ReceiverState::new(true);
    assert_eq!(r.on_sent_unreliable(2), Ok(Some(3)));
    assert_eq!(r.on_sent_unreliable(0), Ok(None));
    assert_eq!(r.sent_unreliable_count_total, 4);
    assert_eq!(r.on_sent_unreliable(u64::MAX - 4), Err(ProtocolError::SentUnreliableCountOverflow));
    assert_eq!(r.on_finish_sender(0), Ok(false));
    assert_eq!(r.on_finish_sender(0), Err(ProtocolError::DuplicateFinishSender));
    assert_eq!(r.on_sent_unreliable(0), Err(ProtocolError::SentUnreliableAfterFinish));
    assert_eq!(r.on_cancel_sender(), Ok(true));
    assert_eq!(r.on_cancel_sender(), Err(ProtocolError::DuplicateCancelSender));
    assert!(r.should_be_closed());
    assert_eq!(r.reliable_ack(), Ok(None));
}

#[test]
fn receiver_closes_when_finished_and_acked() {
    let mut r = ReceiverState::new(true);
    assert_eq!(r.on_finish_sender(0), Ok(true));
    assert!(r.should_be_closed());
}

#[test]
fn pos_neg_ranges_encoding() {
    let mut p = PosNegRanges::new();
    p.neg_delta(3);
    p.neg_delta(2);
    p.pos_delta(0);
    p.pos_delta(4);
    p.neg_delta(1);
    assert_eq!(p.finalize(), vec![0, 5, 4, 1]);
    let mut p = PosNegRanges::new();
    p.pos_delta(2);
    p.pos_delta(3);
    assert_eq!(p.finalize(), vec![5]);
}

#[test]
fn unreliable_ack_manager_timer_round() {
    let mut m = ReceiverUnreliableAckManager::new();
    assert_eq!(m.on_receive(0, true), Ok((false, true)));
    assert_eq!(m.on_receive(1, true), Ok((false, false)));
    let (bytes, restart) = m.on_timer_event().ok().unwrap();
    // AckNackUnreliable type byte, then the payload [1] (one acked) length-prefixed
    assert_eq!(bytes, vec![6, 1, 1]);
    assert!(restart);
    let (bytes, restart) = m.on_timer_event().ok().unwrap();
    assert_eq!(bytes, vec![6, 1, 1]);
    assert!(!restart);
    assert_eq!(m.on_receive(0, true), Ok((true, false)));
    assert_eq!(m.on_receive(u64::MAX, true), Err(AckError::MessageNumTooHigh));
}

#[test]
fn unreliable_ack_manager_nacks_declared_messages() {
    let mut m = ReceiverUnreliableAckManager::new();
    assert_eq!(m.on_declared(2, false), Ok(false));
    assert!(m.on_ctrl_stream_opened());
    let (bytes, restart) = m.on_timer_event().ok().unwrap();
    // nothing received: an initial empty ack, then a nack of 3
    assert_eq!(bytes, vec![6, 2, 0, 3]);
    assert!(!restart);
}

#[test]
fn unreliable_ack_manager_detects_duplicates() {
    let mut m = ReceiverUnreliableAckManager::new();
    m.on_receive(3, false).ok().unwrap();
    m.on_receive(3, false).ok().unwrap();
    assert_eq!(m.on_declared(3, true), Ok(true));
    assert_eq!(m.on_timer_event(), Err(AckError::Overlap));
}

#[test]
fn receiver_reliable_messages() {
    let mut r = ReceiverState::new(true);
    assert_eq!(r.on_reliable_message(u64::MAX), Err(ProtocolError::MessageNumMax));
    assert_eq!(r.on_reliable_message(3), Ok(true));
    assert_eq!(r.on_reliable_message(4), Ok(false));
    assert_eq!(r.on_reliable_message(3), Err(ProtocolError::DuplicateReliableMessage));
    assert_eq!(r.reliable_received_unacked.iter(), vec![(3, 4)]);
    assert_eq!(r.on_finish_sender(5), Ok(false));
    assert_eq!(r.on_reliable_message(5), Err(ProtocolError::ReliableMessageBeyondFinish));
    assert_eq!(r.on_reliable_message(0), Ok(false));
}

#[test]
fn receiver_unreliable_messages() {
    let mut r = ReceiverState::new(true);
    assert_eq!(r.on_unreliable_message(0), Ok(UnreliableMessageOutcome::Accept(Some(1))));
    assert_eq!(r.on_unreliable_message(2), Ok(UnreliableMessageOutcome::Accept(None)));
    assert_eq!(r.on_unreliable_message(2), Err(ProtocolError::DuplicateUnreliableMessage));
    r.unreliable_ack_nacked_lt = 2;
    assert_eq!(r.on_unreliable_message(1), Ok(UnreliableMessageOutcome::Ignore));
    assert_eq!(r.on_sent_unreliable(4), Ok(None));
    assert_eq!(r.on_finish_sender(0), Ok(false));
    assert_eq!(r.on_unreliable_message(5), Err(ProtocolError::UnreliableMessageBeyondFinish));
    assert_eq!(r.on_unreliable_message(4), Ok(UnreliableMessageOutcome::Accept(None)));
}

#[test]
fn receiver_unreliable_bound_covers_declared() {
    let mut r = ReceiverState::new(true);
    assert_eq!(r.on_sent_unreliable(6), Ok(Some(7)));
    let mut s = ReceiverState::new(true);
    assert_eq!(s.on_unreliable_message(0), Ok(UnreliableMessageOutcome::Accept(Some(1))));
    assert_eq!(s.unreliable_ack_nack_lt(), 1);
}

#[test]
fn absent_channel_decisions() {
    let server = Side::server();
    let client = Side::client();
    let mut mint = ChanIdMint::new(server);
    let minted = mint.mint_local_sender();
    let removed: PerSenderSide<PerIsOneshot<RangeSetU64>> = PerSenderSide::default();
    // created locally and minted: removed since
    assert_eq!(absent_channel(&mint, &removed, ChanId::from(minted)), Ok(AbsentChannel::Reset));
    // created locally but never minted
    let never = ChanId::new(server, server, false, 5);
    assert_eq!(absent_channel(&mint, &removed, never), Err(ProtocolError::ChannelNeverCreated));
    // created remotely: new unless removed
    let remote = ChanId::new(client, server, false, 3);
    assert_eq!(absent_channel(&mint, &removed, remote), Ok(AbsentChannel::Create));
    let mut removed = removed;
    removed.0[1].0[0].insert(3, 3);
    assert_eq!(absent_channel(&mint, &removed, remote), Ok(AbsentChannel::Reset));
}

#[test]
fn message_and_attachment_checks() {
    let server = Side::server();
    let client = Side::client();
    let to_server = ChanId::new(client, client, false, 1);
    assert_eq!(check_message_channel(server, to_server), Ok(()));
    assert_eq!(check_message_channel(client, to_server), Err(ProtocolError::MessageOnLocalSender));
    let mut attached = false;
    assert_eq!(on_attached_channel(server, to_server, &mut attached), Ok(()));
    assert!(attached);
    assert_eq!(on_attached_channel(server, to_server, &mut attached), Err(ProtocolError::ChannelAttachedTwice));
    let mut other = false;
    assert_eq!(
        on_attached_channel(client, to_server, &mut other),
        Err(ProtocolError::AttachedChannelCreatedLocally)
    );
    assert!(!other);
}

#[test]
fn unreliable_counters_announce_what_was_sent() {
    let mut c = UnreliableCounters::new();
    assert!(c.on_sent_datagram());
    assert!(!c.on_sent_datagram());
    assert!(!c.on_sent_datagram());
    assert_eq!(c.announce(), 2);
    assert_eq!(c.sent_unreliable_count_total, 3);
    let mut r = ReceiverState::new(true);
    assert_eq!(r.on_sent_unreliable(2), Ok(Some(3)));
    assert_eq!(r.sent_unreliable_count_total, c.sent_unreliable_count_total);
    assert!(c.on_sent_datagram());
    assert_eq!(c.announce(), 0);
    assert_eq!(c.sent_unreliable_count_total, 4);
}

#[test]
fn message_numbering_by_guarantees() {
    let mut o = MessageNumbering::new(Guarantees::Ordered);
    assert_eq!(o.take_reliable(), 0);
    assert_eq!(o.take_reliable(), 1);
    assert_eq!(o, MessageNumbering::Ordered { next_message_num: 2 });
    let mut u = MessageNumbering::new(Guarantees::Unreliable);
    assert_eq!(u.take_reliable(), 0);
    assert_eq!(
        u,
        MessageNumbering::NotOrdered {
            next_reliable_message_num: 1,
            unreliable: Some(UnreliableCounters::new()),
        }
    );
    assert_eq!(
        MessageNumbering::new(Guarantees::Unordered),
        MessageNumbering::NotOrdered { next_reliable_message_num: 0, unreliable: None }
    );
}

#[test]
fn chan_id_mint_receivers_over_many_calls() {
    let mut m = ChanIdMint::new(Side::server());
    let mut ids: Vec<ChanId> = Vec::new();
    for i in 0..5u64 {
        let r = m.mint_local_receiver();
        assert_eq!(r.idx(), i);
        // interleave other mints
        m.mint_local_sender();
        m.mint_local_receiver_oneshot();
        ids.push(r.into());
    }
    for i in 0..ids.len() {
        assert!(ids[i] != ChanId::entrypoint());
        assert!(!ids[i].is_oneshot());
        for j in 0..i {
            assert!(ids[i] != ids[j]);
        }
    }
}

#[test]
fn vec_ack_ranges_disjoint_input_merges_without_error() {
    let mut v = VecAckRanges::new();
    v.add_point(9);
    v.add_point(2);
    v.add_point(5);
    v.add_point(3);
    let merged = v.sort_merge_drain();
    assert!(merged.iter().all(|r| r.is_ok()));
    assert_eq!(merged, vec![Ok((2, 3)), Ok((5, 5)), Ok((9, 9))]);
}

#[test]
fn chan_id_mint_receivers_with_other_interleavings() {
    for side in [Side::client(), Side::server()] {
        let mut m = ChanIdMint::new(side);
        let mut seen: Vec<ChanId> = Vec::new();
        let mut k: u64 = 0;
        for step in 0..12u32 {
            match step % 4 {
                0 | 3 => {
                    let r = m.mint_local_receiver();
                    assert_eq!(r.idx(), k);
                    k += 1;
                    let c: ChanId = r.into();
                    assert!(c.creator() == side && c.sender() == side.opposite() && !c.is_oneshot());
                    assert!(c != ChanId::entrypoint());
                    assert!(!seen.contains(&c));
                    seen.push(c);
                }
                1 => {
                    m.mint_local_sender();
                }
                _ => {
                    m.mint_local_sender_oneshot();
                }
            }
        }
    }
}
