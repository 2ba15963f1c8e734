use aqueduct::codec::write::{datagram_route, DatagramRoute, DatagramsDisabled, Frames};
use aqueduct::proto::codec::{ChanId, Dir, Side};

#[test]
fn entrypoint_sanity() {
    assert!(ChanId::entrypoint().dir() == Dir::ToServer);
    assert!(ChanId::entrypoint().minted_by() == Side::Client);
    assert!(ChanId::entrypoint().oneshot() == false);
    assert_eq!(ChanId::entrypoint().idx(), 0);

    assert_eq!(ChanId::new(Dir::ToServer, Side::Client, false, 0), ChanId::entrypoint());
}

#[test]
fn datagram_route_by_size() {
    assert_eq!(datagram_route(10, None), Err(DatagramsDisabled));
    assert_eq!(datagram_route(1200, Some(1200)), Ok(DatagramRoute::Datagram));
    assert_eq!(datagram_route(1201, Some(1200)), Ok(DatagramRoute::NewStream));
    let mut f = Frames::new();
    f.version();
    assert_eq!(f.len(), f.into_bytes().len());
}
