use etherdream::circular_buffer::CircularBuffer;
use etherdream::client::{
    calculate_point_send_count, decode_response, encode_command, encode_point, response_result, Command,
    CommandError, Error, NakReason, Point, ResponseError, State, Writer, WriterAction, WriterEvent,
};
use etherdream::protocol::{self, ControlSignal, LightEngineState, PlaybackState, RESPONSE_BYTES_SIZE};

fn ready_state(points_buffered: u16) -> State {
    let mut s = protocol::State::default();
    s.playback_state = PlaybackState::Prepared;
    s.points_buffered = points_buffered;
    State::new(s)
}

#[test]
fn commands_encode_to_their_frames() {
    assert_eq!(encode_command(Command::Begin { rate: 1000 }), vec![b'b', 0, 0, 0xE8, 0x03, 0, 0]);
    assert_eq!(encode_command(Command::QueueRate { rate: 0x0102_0304 }), vec![b'q', 4, 3, 2, 1]);
    assert_eq!(encode_command(Command::Clear), vec![b'c']);
    assert_eq!(encode_command(Command::Estop), vec![b'0']);
    assert_eq!(encode_command(Command::Ping), vec![b'?']);
    assert_eq!(encode_command(Command::Prepare), vec![b'p']);
    assert_eq!(encode_command(Command::Stop), vec![b's']);
}

#[test]
fn a_point_encodes_to_eighteen_bytes() {
    let mut out = vec![9u8];
    encode_point(&mut out, (-1, 2, 0xABCD, 0, 65535));
    assert_eq!(
        out,
        vec![9, 0, 0, 0xFF, 0xFF, 2, 0, 0xCD, 0xAB, 0, 0, 0xFF, 0xFF, 0xFF, 0xFF, 0, 0, 0, 0]
    );
}

#[test]
fn responses_decode_or_name_the_unknown_byte() {
    let mut bytes = [0u8; RESPONSE_BYTES_SIZE];
    bytes[0] = b'a';
    bytes[1] = b'd';
    bytes[3] = 0;
    bytes[4] = 2;
    bytes[12] = 10;
    match decode_response(&bytes) {
        Ok((signal, cmd, state)) => {
            assert_eq!(signal, ControlSignal::Ack);
            assert_eq!(cmd, protocol::Command::Data);
            assert_eq!(state.playback_state, PlaybackState::Playing);
            assert_eq!(state.light_engine_state, LightEngineState::Ready);
            assert_eq!(state.points_buffered, 10);
        },
        Err(e) => panic!("unexpected error {:?}", e),
    }
    bytes[0] = b'z';
    assert_eq!(decode_response(&bytes).err(), Some(ResponseError::UnknownControlSignal(b'z')));
    bytes[0] = b'F';
    bytes[1] = b'z';
    assert_eq!(decode_response(&bytes).err(), Some(ResponseError::UnknownCommand(b'z')));
}

#[test]
fn a_response_signal_becomes_the_command_result() {
    let state = ready_state(3);
    assert!(matches!(response_result(ControlSignal::Ack, state), Ok(s) if s.points_buffered() == 3));
    assert!(matches!(
        response_result(ControlSignal::NakEstop, state),
        Err(Error::Command(CommandError::Nak(NakReason::Estop)))
    ));
    assert!(matches!(
        response_result(ControlSignal::NakFull, state),
        Err(Error::Command(CommandError::Nak(NakReason::Full)))
    ));
    assert!(matches!(
        response_result(ControlSignal::NakInvalid, state),
        Err(Error::Command(CommandError::Nak(NakReason::Invalid)))
    ));
}

#[test]
fn the_send_count_is_capped_by_the_devices_room() {
    assert_eq!(calculate_point_send_count(&ready_state(0), 10, 16), 10);
    assert_eq!(calculate_point_send_count(&ready_state(10), 10, 16), 6);
    assert_eq!(calculate_point_send_count(&ready_state(20), 10, 16), 0);
    assert_eq!(calculate_point_send_count(&State::default(), 10, 16), 0);
}

#[test]
fn the_writer_sends_flushed_points_as_the_device_has_room() {
    let mut writer = Writer::new();
    let mut points = CircularBuffer::<Point>::new(8);
    for i in 0..5i16 {
        assert_eq!(points.push((i, -i, 1, 2, 3)), None);
    }

    // The device has room for three points.
    let action = writer.step(WriterEvent::Received(Command::Data { count: 5 }), &ready_state(13), 16, &mut points);
    match action {
        WriterAction::Send(frame) => {
            assert_eq!(frame.len(), 3 + 3 * 18);
            assert_eq!(frame[..3], [b'd', 3, 0]);
            assert_eq!(frame[3..5], [0, 0]);
            assert_eq!(frame[5..7], [0, 0]);
        },
        other => panic!("unexpected action {:?}", other),
    }
    assert_eq!(writer.point_send_count_accumulated, 2);
    assert_eq!(points.len(), 2);

    // The frame is in flight until the device answers.
    assert!(!writer.can_send());
    writer.on_response();
    assert!(writer.can_send());

    // The device is full: nothing is sent, and a due ping goes out instead.
    let action = writer.step(WriterEvent::Idle { ping_due: true }, &ready_state(16), 16, &mut points);
    assert!(matches!(action, WriterAction::Send(ref b) if b == &vec![b'?']));
    writer.on_response();
    let action = writer.step(WriterEvent::Idle { ping_due: false }, &ready_state(16), 16, &mut points);
    assert!(matches!(action, WriterAction::Wait));
    // Sending nothing leaves nothing in flight.
    assert!(writer.can_send());

    // Room again: the remaining two points go out.
    let action = writer.step(WriterEvent::Idle { ping_due: true }, &ready_state(0), 16, &mut points);
    match action {
        WriterAction::Send(frame) => {
            assert_eq!(frame[..3], [b'd', 2, 0]);
            assert_eq!(frame[5..7], [3, 0]);
        },
        other => panic!("unexpected action {:?}", other),
    }
    assert_eq!(writer.point_send_count_accumulated, 0);
    assert!(points.is_empty());
}

#[test]
fn the_writer_sends_other_commands_and_stops_when_closed() {
    let mut writer = Writer::new();
    let mut points = CircularBuffer::<Point>::new(4);
    let action = writer.step(WriterEvent::Received(Command::Stop), &ready_state(0), 16, &mut points);
    assert!(matches!(action, WriterAction::Send(ref b) if b == &vec![b's']));
    assert!(writer.awaiting_ack);
    writer.on_response();
    let action = writer.step(WriterEvent::Closed, &ready_state(0), 16, &mut points);
    assert!(matches!(action, WriterAction::Exit));
}

#[test]
fn client_commands_map_to_protocol_commands() {
    assert_eq!(protocol::Command::from(Command::Begin { rate: 5 }), protocol::Command::Begin);
    assert_eq!(protocol::Command::from(Command::Data { count: 5 }), protocol::Command::Data);
    assert_eq!(protocol::Command::from(Command::QueueRate { rate: 5 }), protocol::Command::QueueRate);
    assert_eq!(protocol::Command::from(Command::Ping), protocol::Command::Ping);
}

#[test]
fn the_client_state_reports_the_device_state() {
    let mut s = protocol::State::default();
    s.playback_state = PlaybackState::Playing;
    s.points_per_second = 1000;
    s.points_lifetime = 77;
    s.playback_flags = 3;
    let state = State::new(s);
    assert!(state.is_ready());
    assert!(state.is_playing());
    assert_eq!(state.points_per_second(), 1000);
    assert_eq!(state.points_lifetime(), 77);
    assert!(state.is_shutter_open());
    assert!(state.is_underflow());
    assert!(!state.is_e_stop());
    assert_eq!(state.source(), protocol::Source::Network);
    assert_eq!(state.light_engine_state(), LightEngineState::Ready);
    assert_eq!(state.playback_state(), PlaybackState::Playing);
}
