use etherdream::address::SocketAddress;
use etherdream::discovery::{decode_broadcast, Registry};
use etherdream::protocol::{
    Intrinsics, LightEngineState, MacAddress, PlaybackState, Source, State, BROADCAST_BYTES_SIZE,
    CLIENT_PORT,
};
use etherdream::test_device::copy_into_etherdream_broadcast_bytes;

fn broadcast_bytes(intrinsics: &Intrinsics, state: &State) -> [u8; BROADCAST_BYTES_SIZE] {
    let mut buf = [0u8; BROADCAST_BYTES_SIZE];
    copy_into_etherdream_broadcast_bytes(&mut buf, intrinsics, state);
    buf
}

fn localhost(port: u16) -> SocketAddress {
    SocketAddress::V4 { ip: 0x7F00_0001, port }
}

#[test]
fn a_single_broadcast_is_decoded_and_published() {
    let intrinsics = Intrinsics {
        buffer_capacity: 16,
        mac_address: [0, 1, 2, 3, 4, 5].into(),
        max_points_per_second: 128,
        version: [3, 2].into(),
    };
    let mut state = State::default();
    state.light_engine_state = LightEngineState::Ready;
    state.playback_state = PlaybackState::Prepared;
    state.points_lifetime = 1234;
    state.points_per_second = 1024;

    let bytes = broadcast_bytes(&intrinsics, &state);
    let (decoded_intrinsics, decoded_state) = decode_broadcast(&bytes).unwrap();

    let mut registry = Registry::<u64>::new();
    let device_info = registry.observe(localhost(40000), decoded_intrinsics, decoded_state, 1).unwrap();

    assert_eq!(device_info.buffer_capacity(), intrinsics.buffer_capacity as usize);
    assert_eq!(*device_info.mac_address(), intrinsics.mac_address);
    assert_eq!(device_info.max_points_per_second(), intrinsics.max_points_per_second as usize);
    assert_eq!(*device_info.version(), intrinsics.version);
    assert_eq!(*device_info.address(), localhost(CLIENT_PORT));

    let broadcast = registry.get(&localhost(40000)).unwrap();
    assert_eq!(broadcast.state().light_engine_state, LightEngineState::Ready);
    assert_eq!(broadcast.state().playback_state, PlaybackState::Prepared);
    assert_eq!(broadcast.state().points_lifetime, 1234);
    assert_eq!(broadcast.state().points_per_second, 1024);
    assert_eq!(broadcast.state().source, Source::Network);
    assert_eq!(*broadcast.inserted_at(), 1);
}

#[test]
fn each_unique_device_is_published_once() {
    let state = State::default();
    let mut intrinsics_1 = Intrinsics::default();
    intrinsics_1.mac_address = MacAddress::new([10; 6]);
    let mut intrinsics_2 = Intrinsics::default();
    intrinsics_2.mac_address = MacAddress::new([20; 6]);

    let mut registry = Registry::<u64>::new();
    let mut published = Vec::new();
    for t in 0..10u64 {
        let bytes = broadcast_bytes(&intrinsics_1, &state);
        let (i, s) = decode_broadcast(&bytes).unwrap();
        if let Some(info) = registry.observe(localhost(5001), i, s, t) {
            published.push(info);
        }
    }
    let bytes = broadcast_bytes(&intrinsics_2, &state);
    let (i, s) = decode_broadcast(&bytes).unwrap();
    if let Some(info) = registry.observe(localhost(5002), i, s, 10) {
        published.push(info);
    }

    assert_eq!(published.len(), 2);
    assert_eq!(*published[0].mac_address(), intrinsics_1.mac_address);
    assert_eq!(*published[1].mac_address(), intrinsics_2.mac_address);
    assert_eq!(registry.len(), 2);

    // The first device was last heard at the tenth broadcast.
    let first = registry.get(&localhost(5001)).unwrap();
    assert_eq!(*first.inserted_at(), 0);
    assert_eq!(*first.updated_at(), 9);
}

#[test]
fn a_short_datagram_decodes_to_nothing() {
    let bytes = [0u8; BROADCAST_BYTES_SIZE - 1];
    assert!(decode_broadcast(&bytes).is_none());
    let longer = [0u8; BROADCAST_BYTES_SIZE + 4];
    assert!(decode_broadcast(&longer).is_some());
}

#[test]
fn an_ipv6_source_is_published_at_the_client_port_without_flow_or_scope() {
    let mut registry = Registry::<u64>::new();
    let source = SocketAddress::V6 { ip: 1, port: 7654, flowinfo: 3, scope_id: 4 };
    let info = registry.observe(source, Intrinsics::default(), State::default(), 0).unwrap();
    assert_eq!(*info.address(), SocketAddress::V6 { ip: 1, port: CLIENT_PORT, flowinfo: 0, scope_id: 0 });
    assert_eq!(source.port(), 7654);
    assert!(registry.get(&SocketAddress::V6 { ip: 1, port: 7654, flowinfo: 0, scope_id: 0 }).is_none());
}
