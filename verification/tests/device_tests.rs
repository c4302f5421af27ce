use etherdream::address::SocketAddress;
use etherdream::address_map::AddressMap;
use etherdream::device::{record_broadcast, Device, PlaybackState, State, Version};
use etherdream::device_info::DeviceInfo;
use etherdream::protocol::BROADCAST_BYTES_SIZE;
use etherdream::test_device::{copy_into_etherdream_broadcast_bytes, TestDevice};
use etherdream::wire::{read_le16, read_le32};

#[test]
fn a_device_decodes_from_its_broadcast() {
    let test_device = TestDevice::with_capacity(300);
    let mut bytes = [0u8; BROADCAST_BYTES_SIZE];
    copy_into_etherdream_broadcast_bytes(&mut bytes, &test_device.intrinsics, &test_device.state);
    let address = SocketAddress::V4 { ip: 0xC0A8_0001, port: 7765 };
    let device = Device::from_bytes(address, &bytes);
    assert_eq!(device.address(), address);
    assert_eq!(device.buffer_capacity(), 300);
    assert_eq!(device.max_points_per_second(), 128);
    assert_eq!(device.mac_address().as_slice(), &[0, 1, 2, 3, 4, 5]);
    assert_eq!(device.version(), Version::new(0, 1));
    assert_eq!(device.state().playback_state, PlaybackState::Prepared);
}

#[test]
fn device_info_reports_its_intrinsics() {
    let test_device = TestDevice::new();
    let info = DeviceInfo::new(SocketAddress::V4 { ip: 1, port: 2 }, test_device.intrinsics);
    assert_eq!(info.buffer_capacity(), 64);
    assert_eq!(info.max_points_per_second(), 128);
    assert_eq!(info.intrinsics().buffer_capacity, 64);
    assert_eq!(info.address().port(), 2);
    assert_eq!(info.address().with_port(7765), SocketAddress::V4 { ip: 1, port: 7765 });
}

#[test]
fn little_endian_fields_read_low_byte_first() {
    assert_eq!(read_le16(0x34, 0x12), 0x1234);
    assert_eq!(read_le32(0x78, 0x56, 0x34, 0x12), 0x1234_5678);
}

#[test]
fn a_device_map_publishes_a_source_once_and_keeps_its_latest_broadcast() {
    let mut devices: AddressMap<Device> = AddressMap::new();
    let source = SocketAddress::V4 { ip: 0x0A00_0002, port: 7654 };
    let mut test_device = TestDevice::with_capacity(32);
    let mut bytes = [0u8; BROADCAST_BYTES_SIZE];
    copy_into_etherdream_broadcast_bytes(&mut bytes, &test_device.intrinsics, &test_device.state);

    let first = record_broadcast(&mut devices, source, &bytes).unwrap();
    assert_eq!(first.address(), SocketAddress::V4 { ip: 0x0A00_0002, port: 7765 });
    assert_eq!(first.buffer_capacity(), 32);

    test_device.state = State { points_buffered: 9, ..test_device.state };
    copy_into_etherdream_broadcast_bytes(&mut bytes, &test_device.intrinsics, &test_device.state);
    assert!(record_broadcast(&mut devices, source, &bytes).is_none());
    assert_eq!(devices.len(), 1);
    assert_eq!(devices.get(&source).unwrap().state().points_buffered, 9);

    let other = SocketAddress::V4 { ip: 0x0A00_0003, port: 7654 };
    assert!(record_broadcast(&mut devices, other, &bytes).is_some());
    assert_eq!(devices.len(), 2);
}

#[test]
fn an_address_map_insert_hands_back_the_value_it_replaced() {
    let mut map: AddressMap<u32> = AddressMap::new();
    let a = SocketAddress::V4 { ip: 1, port: 1 };
    let b = SocketAddress::V6 { ip: 1, port: 1, flowinfo: 0, scope_id: 0 };
    assert_eq!(map.insert(a, 10), None);
    assert_eq!(map.insert(b, 20), None);
    assert_eq!(map.insert(a, 11), Some(10));
    assert_eq!(map.get(&a), Some(&11));
    assert_eq!(map.get(&b), Some(&20));
    assert_eq!(map.len(), 2);
    assert_eq!(map.get(&SocketAddress::V4 { ip: 2, port: 1 }), None);
}
