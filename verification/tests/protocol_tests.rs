use etherdream::protocol::{
    Command, ControlSignal, Intrinsics, LightEngineState, MacAddress, PlaybackState, Source, State,
    Version, BROADCAST_BYTES_SIZE, COMMAND_DATA, CONTROL_ACK, STATE_BYTES_SIZE,
};
use etherdream::test_device::{copy_into_etherdream_broadcast_bytes, copy_into_etherdream_state_bytes, TestDevice};

fn sample_state() -> State {
    State {
        protocol: 0,
        light_engine_state: LightEngineState::WarmUp,
        playback_state: PlaybackState::Playing,
        source: Source::Ilda,
        light_engine_flags: 0,
        playback_flags: 0,
        source_flags: 0,
        points_buffered: 0x1234,
        points_per_second: 30_000,
        points_lifetime: 0x0102_0304,
    }
}

#[test]
fn state_bytes_are_laid_out_little_endian() {
    let mut buf = [0xEEu8; STATE_BYTES_SIZE + 2];
    copy_into_etherdream_state_bytes(&mut buf, &sample_state());
    assert_eq!(
        buf[..STATE_BYTES_SIZE],
        [0, 1, 2, 1, 0, 0, 0, 0, 0, 0, 0x34, 0x12, 0x30, 0x75, 0, 0, 0x04, 0x03, 0x02, 0x01]
    );
    // Bytes after the state are left alone.
    assert_eq!(buf[STATE_BYTES_SIZE..], [0xEE, 0xEE]);
}

#[test]
fn state_survives_encoding_and_decoding() {
    let state = sample_state();
    let mut buf = [0u8; STATE_BYTES_SIZE];
    copy_into_etherdream_state_bytes(&mut buf, &state);
    let decoded = State::from_bytes(&buf);
    assert_eq!(decoded.protocol, 0);
    assert_eq!(decoded.light_engine_state, LightEngineState::WarmUp);
    assert_eq!(decoded.playback_state, PlaybackState::Playing);
    assert_eq!(decoded.source, Source::Ilda);
    assert_eq!(decoded.points_buffered, 0x1234);
    assert_eq!(decoded.points_per_second, 30_000);
    assert_eq!(decoded.points_lifetime, 0x0102_0304);
}

#[test]
fn state_flags_are_decoded_but_not_encoded() {
    let mut bytes = [0u8; STATE_BYTES_SIZE];
    bytes[0] = 9;
    bytes[4] = 1;
    bytes[6] = 0b101;
    bytes[8] = 0x02;
    bytes[9] = 0x01;
    let state = State::from_bytes(&bytes);
    assert_eq!(state.protocol, 9);
    assert_eq!(state.light_engine_flags, 1);
    assert_eq!(state.playback_flags, 5);
    assert_eq!(state.source_flags, 0x0102);
    assert!(state.is_shutter_open());
    assert!(!state.is_underflow());
    assert!(state.is_e_stop());

    // The encoder writes zero where the flags and protocol byte stand.
    let mut again = [0xAAu8; STATE_BYTES_SIZE];
    copy_into_etherdream_state_bytes(&mut again, &state);
    assert_eq!(again[0], 0);
    assert_eq!(again[4..10], [0, 0, 0, 0, 0, 0]);
}

#[test]
fn readiness_needs_clear_flags_a_ready_engine_and_a_prepared_playback() {
    let mut state = State::default();
    assert!(!state.is_ready());
    state.playback_state = PlaybackState::Prepared;
    assert!(state.is_ready());
    assert!(!state.is_playing());
    state.playback_state = PlaybackState::Playing;
    assert!(state.is_ready());
    assert!(state.is_playing());
    state.light_engine_flags = 4;
    assert!(!state.is_ready());
    assert!(!state.is_playing());
    state.light_engine_flags = 0;
    state.light_engine_state = LightEngineState::CoolDown;
    assert!(!state.is_ready());
}

#[test]
fn playback_flags_name_shutter_underflow_and_e_stop() {
    let mut state = State::default();
    state.playback_flags = 1;
    assert!(state.is_shutter_open() && !state.is_underflow() && !state.is_e_stop());
    state.playback_flags = 2;
    assert!(!state.is_shutter_open() && state.is_underflow() && !state.is_e_stop());
    state.playback_flags = 4;
    assert!(!state.is_shutter_open() && !state.is_underflow() && state.is_e_stop());
    state.playback_flags = 0xFFF8;
    assert!(!state.is_shutter_open() && !state.is_underflow() && !state.is_e_stop());
}

#[test]
fn status_bytes_decode_to_states() {
    assert_eq!(LightEngineState::from_byte(0), LightEngineState::Ready);
    assert_eq!(LightEngineState::from_byte(1), LightEngineState::WarmUp);
    assert_eq!(LightEngineState::from_byte(2), LightEngineState::CoolDown);
    assert_eq!(LightEngineState::from_byte(3), LightEngineState::Estop);
    assert_eq!(LightEngineState::from_byte(200), LightEngineState::Estop);
    assert_eq!(PlaybackState::from_byte(0), PlaybackState::Idle);
    assert_eq!(PlaybackState::from_byte(1), PlaybackState::Prepared);
    assert_eq!(PlaybackState::from_byte(2), PlaybackState::Playing);
    assert_eq!(PlaybackState::from_byte(9), PlaybackState::Playing);
    assert_eq!(Source::from_byte(0), Source::Network);
    assert_eq!(Source::from_byte(1), Source::Ilda);
    assert_eq!(Source::from_byte(2), Source::Internal);
    assert_eq!(Source::from_byte(77), Source::Internal);
    assert_eq!(LightEngineState::from(1u8), LightEngineState::WarmUp);
    assert_eq!(PlaybackState::from(1u8), PlaybackState::Prepared);
    assert_eq!(Source::from(1u8), Source::Ilda);
    for s in [LightEngineState::Ready, LightEngineState::WarmUp, LightEngineState::CoolDown, LightEngineState::Estop] {
        assert_eq!(LightEngineState::from_byte(s.to_byte()), s);
    }
    for s in [PlaybackState::Idle, PlaybackState::Prepared, PlaybackState::Playing] {
        assert_eq!(PlaybackState::from_byte(s.to_byte()), s);
    }
    for s in [Source::Network, Source::Ilda, Source::Internal] {
        assert_eq!(Source::from_byte(s.to_byte()), s);
    }
}

#[test]
fn command_and_control_bytes_convert_both_ways() {
    assert_eq!(Command::try_from(b'b'), Ok(Command::Begin));
    assert_eq!(Command::try_from(b'c'), Ok(Command::Clear));
    assert_eq!(Command::try_from(COMMAND_DATA), Ok(Command::Data));
    assert_eq!(Command::try_from(b'0'), Ok(Command::Estop));
    assert_eq!(Command::try_from(b'?'), Ok(Command::Ping));
    assert_eq!(Command::try_from(b'p'), Ok(Command::Prepare));
    assert_eq!(Command::try_from(b'q'), Ok(Command::QueueRate));
    assert_eq!(Command::try_from(b's'), Ok(Command::Stop));
    assert_eq!(Command::try_from(b'x'), Err(b'x'));
    assert_eq!(Command::Stop.to_byte(), b's');
    assert_eq!(ControlSignal::try_from(CONTROL_ACK), Ok(ControlSignal::Ack));
    assert_eq!(ControlSignal::try_from(b'!'), Ok(ControlSignal::NakEstop));
    assert_eq!(ControlSignal::try_from(b'F'), Ok(ControlSignal::NakFull));
    assert_eq!(ControlSignal::try_from(b'I'), Ok(ControlSignal::NakInvalid));
    assert_eq!(ControlSignal::try_from(0), Err(0));
    assert_eq!(ControlSignal::NakFull.to_byte(), b'F');
}

#[test]
fn intrinsics_decode_from_their_sixteen_bytes() {
    let bytes = [1u8, 2, 3, 4, 5, 6, 3, 0, 2, 0, 0x00, 0x04, 0x40, 0x9C, 0, 0];
    let i = Intrinsics::from_bytes(&bytes);
    assert_eq!(i.mac_address.as_slice(), &[1, 2, 3, 4, 5, 6]);
    assert_eq!(i.version, Version::new(3, 2));
    assert_eq!(i.buffer_capacity, 1024);
    assert_eq!(i.max_points_per_second, 40_000);
}

#[test]
fn versions_and_mac_addresses_convert_from_arrays() {
    let v: Version = [3, 2].into();
    assert_eq!(v.hardware, 3);
    assert_eq!(v.software, 2);
    assert_eq!(Version::from_pair([7, 8]), Version::new(7, 8));
    let m: MacAddress = [0, 1, 2, 3, 4, 5].into();
    assert_eq!(m, MacAddress::new([0, 1, 2, 3, 4, 5]));
    assert_ne!(m, MacAddress::new([0, 1, 2, 3, 4, 6]));
    assert_eq!(m.octets(), [0, 1, 2, 3, 4, 5]);
    assert_eq!(MacAddress::default().as_slice(), &[0, 0, 0, 0, 0, 0]);
}

#[test]
fn test_device_broadcast_is_intrinsics_then_state() {
    let device = TestDevice::with_capacity(1024);
    let mut buf = [0u8; BROADCAST_BYTES_SIZE];
    copy_into_etherdream_broadcast_bytes(&mut buf, &device.intrinsics, &device.state);
    assert_eq!(buf[..16], [0, 1, 2, 3, 4, 5, 0, 0, 1, 0, 0x00, 0x04, 128, 0, 0, 0]);
    assert_eq!(buf[16..20], [0, 0, 1, 0]);
    assert_eq!(TestDevice::new().intrinsics.buffer_capacity, 64);
}
