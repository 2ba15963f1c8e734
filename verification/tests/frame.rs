use aqueduct::frame::common::{ascii_to_str, ChanId, Dir, FrameTag, Side};
use aqueduct::frame::read::{Error, Frame, Frames as ReadFrames, Reader};
use aqueduct::frame::typed_chan_id::SortByDir;
use aqueduct::frame::write::{Attachments, Deltas, Frames, Headers, Writer};

fn varint(i: u64) -> Vec<u8> {
    let mut w = Writer::new();
    w.write_varint(i);
    w.into_bytes()
}

#[test]
fn varint_exact_bytes() {
    assert_eq!(varint(0), vec![0]);
    assert_eq!(varint(127), vec![127]);
    assert_eq!(varint(128), vec![0x80, 1]);
    assert_eq!(varint(300), vec![0xac, 0x02]);
    assert_eq!(varint(u64::MAX), vec![0xff; 9]);
}

#[test]
fn varint_roundtrip_values() {
    for &i in &[0u64, 1, 127, 128, 16383, 16384, 1 << 56, (1 << 56) - 1, u64::MAX - 1, u64::MAX] {
        let mut r = Reader::new(varint(i));
        assert_eq!(r.read_varint(), Ok(i));
        assert!(r.is_done());
    }
}

#[test]
fn varint_truncated_is_too_few_bytes() {
    let mut r = Reader::new(vec![0x80]);
    assert_eq!(r.read_varint(), Err(Error::TooFewBytes));
}

#[test]
fn read_byte_and_zc() {
    let mut r = Reader::new(vec![1, 2, 3, 4]);
    assert_eq!(r.read_byte(), Ok(1));
    assert_eq!(r.read_zc(2), Ok(vec![2, 3]));
    assert_eq!(r.read_zc(2), Err(Error::TooFewBytes));
}

#[test]
fn frame_tag_bytes() {
    assert!(FrameTag::from_byte(239) == Some(FrameTag::Version));
    assert!(FrameTag::from_byte(1) == Some(FrameTag::AckVersion));
    assert!(FrameTag::from_byte(11) == Some(FrameTag::ForgetChannel));
    assert!(FrameTag::from_byte(12).is_none());
    assert_eq!(FrameTag::Message.to_byte(), 4);
}

#[test]
fn chan_id_components() {
    let c = ChanId::new(Side::server(), Side::client(), true, 5);
    assert_eq!(c.0, 5 * 8 + 4 + 1);
    assert!(c.creator() == Side::server());
    assert!(c.sender() == Side::client());
    assert!(c.is_oneshot());
    assert_eq!(c.idx(), 5);
    assert!(c.dir() == Dir::ToServer);
    assert!(ChanId::entrypoint() == ChanId(0));
}

#[test]
fn typed_chan_id_sorting() {
    let c = ChanId::new(Side::client(), Side::client(), false, 3);
    match c.sort_by_dir(Side::client()) {
        SortByDir::LocalSender(_) => {}
        SortByDir::LocalReceiver(_) => panic!("client sends on this channel"),
    }
    match c.sort_by_dir(Side::server()) {
        SortByDir::LocalReceiver(_) => {}
        SortByDir::LocalSender(_) => panic!("server receives on this channel"),
    }
}

#[test]
fn ascii_views() {
    assert_eq!(ascii_to_str(b"abc"), Some("abc"));
    assert_eq!(ascii_to_str(&[0xff]), None);
}

#[test]
fn version_frame_roundtrip() {
    let f = Frames::new_with_version(false);
    let bytes = f.into_bytes();
    assert_eq!(bytes[0], 239);
    assert_eq!(&bytes[8..16], b"AQUEDUCT");
    let r = ReadFrames::from_datagram(bytes);
    match r.frame() {
        Ok(Some(Frame::Version(rest))) => assert!(matches!(rest.frame(), Ok(None))),
        _ => panic!("expected a version frame"),
    }
    assert!(Frames::new_with_version(true).into_bytes().is_empty());
}

#[test]
fn version_frame_wrong_text() {
    let mut bytes = Frames::new_with_version(false).into_bytes();
    bytes[8] = b'X';
    assert!(matches!(ReadFrames::from_datagram(bytes).frame(), Err(Error::WrongVersionText)));
}

#[test]
fn route_to_and_sent_unreliable_roundtrip() {
    let mut f = Frames::new();
    f.route_to(ChanId(77));
    f.sent_unreliable(9);
    let r = ReadFrames::from_datagram(f.into_bytes());
    let next = match r.frame() {
        Ok(Some(Frame::RouteTo(rt))) => {
            assert_eq!(rt.chan_id, ChanId(77));
            rt.next
        }
        _ => panic!("expected RouteTo"),
    };
    match next.frame() {
        Ok(Some(Frame::SentUnreliable(s))) => {
            assert_eq!(s.count, 9);
            assert!(matches!(s.next.frame(), Ok(None)));
        }
        _ => panic!("expected SentUnreliable"),
    }
}

#[test]
fn unknown_frame_tag() {
    assert!(matches!(ReadFrames::from_datagram(vec![200]).frame(), Err(Error::UnknownFrameTag(200))));
}

#[test]
fn ack_nack_deltas_roundtrip() {
    let mut d = Deltas::new();
    d.delta(3);
    d.delta(300);
    let mut f = Frames::new();
    f.ack_nack_unreliable(d);
    let r = ReadFrames::from_datagram(f.into_bytes());
    match r.frame() {
        Ok(Some(Frame::AckNackUnreliable(mut a))) => {
            assert_eq!(a.delta(), Ok(3));
            assert_eq!(a.delta(), Ok(300));
            assert_eq!(a.remaining_bytes(), 0);
            assert!(matches!(a.done().frame(), Ok(None)));
        }
        _ => panic!("expected AckNackUnreliable"),
    }
}

#[test]
fn message_frame_roundtrip() {
    let mut h = Headers::new();
    h.header(b"k".to_vec(), b"v".to_vec());
    let mut f = Frames::new();
    f.message(42, h, Attachments::new(), b"payload".to_vec());
    let r = ReadFrames::from_datagram(f.into_bytes());
    match r.frame() {
        Ok(Some(Frame::Message(m))) => {
            assert_eq!(m.message_num, 42);
            let mut hs = m.message_headers;
            assert_eq!(hs.header(), Ok((b"k".to_vec(), b"v".to_vec())));
            let atts = hs.done().ok().unwrap();
            let payload = atts.done().ok().unwrap();
            assert_eq!(payload.bytes(), 7);
            let (p, rest) = payload.read().ok().unwrap();
            assert_eq!(p, b"payload".to_vec());
            assert!(matches!(rest.frame(), Ok(None)));
        }
        _ => panic!("expected Message"),
    }
}
