use etherdream::client::{encode_command, Command};
use etherdream::protocol::{
    self, ControlSignal, LightEngineState, PlaybackState, Source, CONTROL_ACK, CONTROL_NAK_FULL,
    CONTROL_NAK_INVALID, RESPONSE_BYTES_SIZE,
};
use etherdream::simulator::{
    ack, apply_request, consume_points, copy_state_into_buf, default_test_device_properties,
    device_properties, emulate_packet, header_len, parse_request, payload_len, response, response_to,
    Request, DEFAULT_POINT_BUFFER_CAPACITY,
};

fn read(frame: &[u8]) -> Request {
    let cmd = frame[0];
    let n = header_len(cmd);
    parse_request(cmd, &frame[1..1 + n])
}

#[test]
fn a_device_reads_the_frames_a_client_writes() {
    assert_eq!(read(&encode_command(Command::Begin { rate: 30_000 })), Request::Begin { rate: 30_000 });
    assert_eq!(read(&encode_command(Command::Prepare)), Request::Prepare);
    assert_eq!(read(&encode_command(Command::Stop)), Request::Stop);
    assert_eq!(read(&encode_command(Command::Clear)), Request::Clear);
    assert_eq!(read(&encode_command(Command::Ping)), Request::Ping);
    assert_eq!(read(&encode_command(Command::Estop)), Request::Unknown(b'0'));
    assert_eq!(read(&[b'd', 0x05, 0x01]), Request::Data { count: 261 });
    assert_eq!(payload_len(&Request::Data { count: 2 }), 36);
    assert_eq!(payload_len(&Request::Ping), 0);
    assert_eq!(header_len(b'b'), 6);
    assert_eq!(header_len(b'd'), 2);
    assert_eq!(header_len(b'?'), 0);
}

#[test]
fn a_simulated_device_serves_requests() {
    let (intrinsics, mut state) = device_properties(16);
    assert_eq!(intrinsics.buffer_capacity, 16);
    assert_eq!(state.playback_state, PlaybackState::Prepared);

    assert_eq!(apply_request(&intrinsics, &mut state, Request::Data { count: 10 }), ControlSignal::Ack);
    assert_eq!(state.points_buffered, 10);
    assert_eq!(apply_request(&intrinsics, &mut state, Request::Data { count: 7 }), ControlSignal::NakFull);
    assert_eq!(state.points_buffered, 10);
    assert_eq!(apply_request(&intrinsics, &mut state, Request::Data { count: 6 }), ControlSignal::Ack);
    assert_eq!(state.points_buffered, 16);

    assert_eq!(apply_request(&intrinsics, &mut state, Request::Begin { rate: 1000 }), ControlSignal::Ack);
    assert_eq!(state.playback_state, PlaybackState::Playing);
    assert_eq!(state.points_per_second, 1000);

    assert_eq!(apply_request(&intrinsics, &mut state, Request::Stop), ControlSignal::Ack);
    assert_eq!(state.playback_state, PlaybackState::Idle);
    // An idle device is not ready, so a second stop is refused.
    assert_eq!(apply_request(&intrinsics, &mut state, Request::Stop), ControlSignal::NakInvalid);

    assert_eq!(apply_request(&intrinsics, &mut state, Request::Prepare), ControlSignal::Ack);
    assert_eq!(state.playback_state, PlaybackState::Prepared);
    assert_eq!(state.light_engine_state, LightEngineState::Ready);
    assert_eq!(state.points_buffered, 0);

    assert_eq!(apply_request(&intrinsics, &mut state, Request::Ping), ControlSignal::Ack);
    assert_eq!(apply_request(&intrinsics, &mut state, Request::Clear), ControlSignal::Ack);
    assert_eq!(apply_request(&intrinsics, &mut state, Request::Unknown(b'z')), ControlSignal::NakInvalid);
}

#[test]
fn a_response_is_signal_command_and_state() {
    let (_, mut state) = default_test_device_properties();
    state.points_buffered = 0x0102;
    let bytes = response_to(ControlSignal::NakFull, b'd', &state);
    assert_eq!(bytes.len(), RESPONSE_BYTES_SIZE);
    assert_eq!(bytes[..6], [b'F', b'd', 0, 0, 1, 0]);
    assert_eq!(bytes[12..14], [0x02, 0x01]);

    let mut buf = [7u8; RESPONSE_BYTES_SIZE + 3];
    response(&mut buf, CONTROL_NAK_INVALID, b'x', &state);
    assert_eq!(buf[..2], [b'I', b'x']);
    assert_eq!(buf[2..22], bytes[2..22]);
    assert_eq!(buf[22..], [0, 0, 0]);

    let mut buf = [7u8; RESPONSE_BYTES_SIZE];
    ack(&mut buf, b'?', &state);
    assert_eq!(buf[..2], [CONTROL_ACK, b'?']);
}

#[test]
fn the_default_emulated_device_holds_a_thousand_and_twenty_four_points() {
    let (intrinsics, state) = default_test_device_properties();
    assert_eq!(intrinsics.buffer_capacity, 1024);
    assert_eq!(intrinsics.max_points_per_second, 0);
    assert_eq!(state.playback_state, PlaybackState::Prepared);
    assert_eq!(state.light_engine_state, LightEngineState::Ready);
    assert_eq!(state.source, Source::Network);
    assert_eq!(DEFAULT_POINT_BUFFER_CAPACITY, 1024);
}

#[test]
fn consuming_points_never_goes_below_zero() {
    let (_, mut state) = device_properties(64);
    state.points_buffered = 10;
    consume_points(&mut state, 4);
    assert_eq!(state.points_buffered, 6);
    consume_points(&mut state, 100);
    assert_eq!(state.points_buffered, 0);
}

#[test]
fn the_state_is_copied_to_the_front_of_a_buffer() {
    let mut state = protocol::State::default();
    state.points_per_second = 0x0A0B0C0D;
    let mut buf = [0xFFu8; 24];
    copy_state_into_buf(&mut buf, &state);
    assert_eq!(buf[..4], [0, 0, 0, 0]);
    assert_eq!(buf[12..16], [0x0D, 0x0C, 0x0B, 0x0A]);
    assert_eq!(buf[20..], [0xFF, 0xFF, 0xFF, 0xFF]);
}

#[test]
fn an_emulated_device_answers_each_packet() {
    let (intrinsics, mut state) = device_properties(8);
    let mut out = [9u8; RESPONSE_BYTES_SIZE];

    emulate_packet(&intrinsics, &mut state, &[b'd', 5, 0, 0, 0, 0, 0], &mut out);
    assert_eq!(out[..2], [CONTROL_ACK, b'd']);
    assert_eq!(state.points_buffered, 5);

    emulate_packet(&intrinsics, &mut state, &[b'd', 4, 0, 0, 0, 0, 0], &mut out);
    assert_eq!(out[..2], [CONTROL_NAK_FULL, b'd']);
    assert_eq!(state.points_buffered, 5);

    emulate_packet(&intrinsics, &mut state, &[b'b', 0, 0, 0xE8, 0x03, 0, 0], &mut out);
    assert_eq!(state.points_per_second, 1000);
    assert_eq!(state.playback_state, PlaybackState::Playing);

    emulate_packet(&intrinsics, &mut state, &[b'p', 0, 0, 0, 0, 0, 0], &mut out);
    assert_eq!(state.points_buffered, 0);
    // Preparing an emulated device only empties its buffer.
    assert_eq!(state.playback_state, PlaybackState::Playing);

    emulate_packet(&intrinsics, &mut state, &[b's', 0, 0, 0, 0, 0, 0], &mut out);
    assert_eq!(out[..2], [CONTROL_ACK, b's']);
    assert_eq!(state.playback_state, PlaybackState::Idle);

    emulate_packet(&intrinsics, &mut state, &[b's', 0, 0, 0, 0, 0, 0], &mut out);
    assert_eq!(out[..2], [CONTROL_NAK_INVALID, b's']);

    emulate_packet(&intrinsics, &mut state, &[b'z', 0, 0, 0, 0, 0, 0], &mut out);
    assert_eq!(out[..2], [CONTROL_NAK_INVALID, b'z']);
}

#[test]
fn a_client_reads_back_the_response_a_device_writes() {
    let (_, mut state) = device_properties(64);
    state.points_buffered = 12;
    state.points_lifetime = 99_999;
    let bytes = response_to(ControlSignal::NakInvalid, b'b', &state);
    let (signal, cmd, decoded) = etherdream::client::decode_response(&bytes).unwrap();
    assert_eq!(signal, ControlSignal::NakInvalid);
    assert_eq!(cmd, protocol::Command::Begin);
    assert_eq!(decoded.points_buffered, 12);
    assert_eq!(decoded.points_lifetime, 99_999);
    assert_eq!(decoded.playback_state, PlaybackState::Prepared);
}
