//! The device side of the Etherdream protocol, as the simulator and the
//! emulators play it: how a request is read, what it does to the device
//! state, and the response that answers it.
use vstd::prelude::*;
use crate::protocol::{
    self, state_bytes, write_state, written_at, ControlSignal, Intrinsics, LightEngineState,
    PlaybackState, Version, COMMAND_BEGIN, COMMAND_CLEAR, COMMAND_DATA, COMMAND_PING, COMMAND_PREPARE,
    COMMAND_STOP, CONTROL_ACK, CONTROL_NAK_FULL, CONTROL_NAK_INVALID, POINT_DATA_BYTES_SIZE,
    RESPONSE_BYTES_SIZE,
};
use crate::client::{self, command_frame, data_frame};
use crate::protocol::{
    command_byte, command_from_byte, control_signal_byte, control_signal_from_byte, law_state_roundtrip,
    state_of,
};
use crate::wire::{le16, le32, lemma_le16_roundtrip, lemma_le32_roundtrip, read_le16, read_le32};

verus! {

/// Default point buffer capacity of a simulated device.
pub const DEFAULT_POINT_BUFFER_CAPACITY: u16 = 1024;

/// The state a simulated device starts in: the default state, but prepared
/// for playback.
pub open spec fn starting_state() -> protocol::State {
    protocol::State {
        protocol: 0,
        light_engine_state: LightEngineState::Ready,
        playback_state: PlaybackState::Prepared,
        source: protocol::Source::Network,
        light_engine_flags: 0,
        playback_flags: 0,
        source_flags: 0,
        points_buffered: 0,
        points_per_second: 0,
        points_lifetime: 0,
    }
}

/// The intrinsics and starting state of a simulated device whose point
/// buffer holds `capacity` points: default intrinsics but for the capacity.
pub fn device_properties(capacity: u16) -> (r: (Intrinsics, protocol::State))
    ensures
        r.0.buffer_capacity == capacity,
        r.0.mac_address@ == seq![0u8, 0u8, 0u8, 0u8, 0u8, 0u8],
        r.0.version == (Version { hardware: 0, software: 0 }),
        r.0.max_points_per_second == 0,
        r.1 == starting_state(),
{
    let mut intrinsics = Intrinsics::default();
    intrinsics.buffer_capacity = capacity;
    let mut state = protocol::State::default();
    state.playback_state = PlaybackState::Prepared;
    (intrinsics, state)
}

/// The intrinsics and starting state of the default emulated device, whose
/// point buffer holds 1024 points.
pub fn default_test_device_properties() -> (r: (Intrinsics, protocol::State))
    ensures
        r.0.buffer_capacity == 1024,
        r.0.mac_address@ == seq![0u8, 0u8, 0u8, 0u8, 0u8, 0u8],
        r.0.version == (Version { hardware: 0, software: 0 }),
        r.0.max_points_per_second == 0,
        r.1 == starting_state(),
{
    device_properties(1024)
}

/// Takes `count` points out of a device's buffer, or all of them where it
/// holds fewer.
pub fn consume_points(state: &mut protocol::State, count: u16)
    ensures
        *final(state) == (protocol::State {
            points_buffered: if old(state).points_buffered > count {
                (old(state).points_buffered - count) as u16
            } else {
                0u16
            },
            ..*old(state)
        }),
{
    state.points_buffered = state.points_buffered.saturating_sub(count);
}

/// Copies the state bytes of `state` to the front of `buf`.
pub fn copy_state_into_buf(buf: &mut [u8], state: &protocol::State)
    requires
        old(buf)@.len() >= protocol::STATE_BYTES_SIZE,
    ensures
        written_at(old(buf)@, final(buf)@, 0, state_bytes(*state)),
{
    write_state(buf, 0, state);
}

/// A request a simulated device serves.
#[derive(Clone, Copy, Debug, PartialEq, Eq, Structural)]
pub enum Request {
    Prepare,
    Data { count: u16 },
    Begin { rate: u32 },
    Stop,
    Clear,
    Ping,
    Unknown(u8),
}

/// The number of bytes that follow a command byte before any point data: a
/// point count for `Data`, two unused bytes and a rate for `Begin`.
pub open spec fn header_len_of(cmd: u8) -> nat {
    if cmd == COMMAND_DATA {
        2
    } else if cmd == COMMAND_BEGIN {
        6
    } else {
        0
    }
}

/// The request that a command byte and the header after it make.
pub open spec fn request_of(cmd: u8, header: Seq<u8>) -> Request {
    if cmd == COMMAND_PREPARE {
        Request::Prepare
    } else if cmd == COMMAND_DATA {
        Request::Data { count: le16(header[0], header[1]) as u16 }
    } else if cmd == COMMAND_BEGIN {
        Request::Begin { rate: le32(header[2], header[3], header[4], header[5]) as u32 }
    } else if cmd == COMMAND_STOP {
        Request::Stop
    } else if cmd == COMMAND_CLEAR {
        Request::Clear
    } else if cmd == COMMAND_PING {
        Request::Ping
    } else {
        Request::Unknown(cmd)
    }
}

/// Returns how many header bytes follow `cmd`.
pub fn header_len(cmd: u8) -> (n: usize)
    ensures
        n == header_len_of(cmd),
{
    if cmd == COMMAND_DATA {
        2
    } else if cmd == COMMAND_BEGIN {
        6
    } else {
        0
    }
}

/// Reads the request made of `cmd` and its header.
pub fn parse_request(cmd: u8, header: &[u8]) -> (r: Request)
    requires
        header@.len() >= header_len_of(cmd),
    ensures
        r == request_of(cmd, header@),
{
    if cmd == COMMAND_PREPARE {
        Request::Prepare
    } else if cmd == COMMAND_DATA {
        Request::Data { count: read_le16(header[0], header[1]) }
    } else if cmd == COMMAND_BEGIN {
        Request::Begin { rate: read_le32(header[2], header[3], header[4], header[5]) }
    } else if cmd == COMMAND_STOP {
        Request::Stop
    } else if cmd == COMMAND_CLEAR {
        Request::Clear
    } else if cmd == COMMAND_PING {
        Request::Ping
    } else {
        Request::Unknown(cmd)
    }
}

/// The number of point data bytes that follow a request's header.
pub fn payload_len(request: &Request) -> (n: usize)
    ensures
        n == match *request {
            Request::Data { count } => count * POINT_DATA_BYTES_SIZE,
            _ => 0,
        },
{
    match request {
        Request::Data { count } => (*count as usize) * POINT_DATA_BYTES_SIZE,
        _ => 0,
    }
}

/// The room left in a device buffer of `capacity` that holds `buffered`.
pub open spec fn room(capacity: u16, buffered: u16) -> int {
    if capacity > buffered {
        capacity - buffered
    } else {
        0
    }
}

/// What a request does to the device state, and the control signal that
/// answers it. `Prepare` readies the light engine, prepares playback and
/// empties the buffer; `Data` is taken when it fits in the room left and
/// refused as full otherwise; `Begin` sets the rate and starts playing;
/// `Stop` idles a ready device and is refused as invalid otherwise; `Clear`
/// and `Ping` change nothing; any other command is refused as invalid.
pub open spec fn simulate(capacity: u16, s: protocol::State, request: Request) -> (
    protocol::State,
    ControlSignal,
) {
    match request {
        Request::Prepare => (
            protocol::State {
                light_engine_state: LightEngineState::Ready,
                playback_state: PlaybackState::Prepared,
                points_buffered: 0,
                ..s
            },
            ControlSignal::Ack,
        ),
        Request::Data { count } => if count <= room(capacity, s.points_buffered) {
            (
                protocol::State { points_buffered: (s.points_buffered + count) as u16, ..s },
                ControlSignal::Ack,
            )
        } else {
            (s, ControlSignal::NakFull)
        },
        Request::Begin { rate } => (
            protocol::State { points_per_second: rate, playback_state: PlaybackState::Playing, ..s },
            ControlSignal::Ack,
        ),
        Request::Stop => if s.ready() {
            (protocol::State { playback_state: PlaybackState::Idle, ..s }, ControlSignal::Ack)
        } else {
            (s, ControlSignal::NakInvalid)
        },
        Request::Clear | Request::Ping => (s, ControlSignal::Ack),
        Request::Unknown(_) => (s, ControlSignal::NakInvalid),
    }
}

/// Serves `request` on the device state and returns the control signal of
/// the response.
pub fn apply_request(intrinsics: &Intrinsics, state: &mut protocol::State, request: Request) -> (signal: ControlSignal)
    ensures
        (*final(state), signal) == simulate(intrinsics.buffer_capacity, *old(state), request),
        old(state).points_buffered <= intrinsics.buffer_capacity ==> final(state).points_buffered
            <= intrinsics.buffer_capacity,
{
    match request {
        Request::Prepare => {
            state.light_engine_state = LightEngineState::Ready;
            state.playback_state = PlaybackState::Prepared;
            state.points_buffered = 0;
            ControlSignal::Ack
        },
        Request::Data { count } => {
            if count <= intrinsics.buffer_capacity.saturating_sub(state.points_buffered) {
                state.points_buffered = state.points_buffered + count;
                ControlSignal::Ack
            } else {
                ControlSignal::NakFull
            }
        },
        Request::Begin { rate } => {
            state.points_per_second = rate;
            state.playback_state = PlaybackState::Playing;
            ControlSignal::Ack
        },
        Request::Stop => {
            if state.is_ready() {
                state.playback_state = PlaybackState::Idle;
                ControlSignal::Ack
            } else {
                ControlSignal::NakInvalid
            }
        },
        Request::Clear | Request::Ping => ControlSignal::Ack,
        Request::Unknown(_) => ControlSignal::NakInvalid,
    }
}

/// A simulated device whose buffer held no more than its capacity still
/// does after it serves any request.
pub proof fn law_simulated_buffer_within_capacity(capacity: u16, s: protocol::State, request: Request)
    requires
        s.points_buffered <= capacity,
    ensures
        simulate(capacity, s, request).0.points_buffered <= capacity,
{
}

/// Stopping a device that is not ready is refused and changes nothing.
pub proof fn law_stop_needs_ready(capacity: u16, s: protocol::State)
    requires
        !s.ready(),
    ensures
        simulate(capacity, s, Request::Stop) == (s, ControlSignal::NakInvalid),
{
}

/// The twenty-two response bytes: the control signal, the command answered,
/// then the state bytes.
pub open spec fn response_bytes(signal: u8, command: u8, s: protocol::State) -> Seq<u8> {
    seq![signal, command] + state_bytes(s)
}

/// Builds the response to `command`.
pub fn response_to(signal: ControlSignal, command: u8, state: &protocol::State) -> (out: Vec<u8>)
    ensures
        out@ == response_bytes(protocol::control_signal_byte(signal), command, *state),
{
    let mut out: Vec<u8> = Vec::new();
    let mut i: usize = 0;
    while i < RESPONSE_BYTES_SIZE
        invariant
            i <= RESPONSE_BYTES_SIZE,
            out@.len() == i,
        decreases RESPONSE_BYTES_SIZE - i,
    {
        out.push(0);
        i = i + 1;
    }
    out.set(0, signal.to_byte());
    out.set(1, command);
    let ghost before = out@;
    write_state(out.as_mut_slice(), 2, state);
    proof {
        assert(out@ =~= out@.subrange(0, 2) + out@.subrange(2, 22));
        assert(out@.subrange(0, 2) =~= before.subrange(0, 2));
    }
    out
}

/// Writes a response into `buf`: every byte zero, then the control signal,
/// the command and the state bytes at the front.
pub fn response(buf: &mut [u8], control_signal: u8, command: u8, state: &protocol::State)
    requires
        old(buf)@.len() >= RESPONSE_BYTES_SIZE,
    ensures
        final(buf)@ == response_bytes(control_signal, command, *state) + Seq::new(
            (old(buf)@.len() - RESPONSE_BYTES_SIZE) as nat,
            |_i: int| 0u8,
        ),
{
    let n = buf.len();
    let mut i: usize = 0;
    while i < n
        invariant
            i <= n,
            buf@.len() == n,
            forall|j: int| 0 <= j < i ==> buf@[j] == 0u8,
        decreases n - i,
    {
        buf[i] = 0;
        i = i + 1;
    }
    buf[0] = control_signal;
    buf[1] = command;
    let ghost before = buf@;
    write_state(buf, 2, state);
    proof {
        let sb = state_bytes(*state);
        let head = response_bytes(control_signal, command, *state);
        let target = head + Seq::new((n - RESPONSE_BYTES_SIZE) as nat, |_i: int| 0u8);
        assert(sb.len() == 20);
        assert(head.len() == 22);
        assert forall|j: int| 0 <= j < n implies buf@[j] == target[j] by {
            if j < 2 {
                assert(buf@.subrange(0, 2)[j] == before.subrange(0, 2)[j]);
                assert(head[j] == seq![control_signal, command][j]);
            } else if j < 22 {
                assert(buf@.subrange(2, 22)[j - 2] == buf@[j]);
                assert(head[j] == sb[j - 2]);
            } else {
                assert(buf@.subrange(22, n as int)[j - 22] == before.subrange(22, n as int)[j - 22]);
            }
        }
        assert(buf@ =~= target);
    }
}

/// Writes an acknowledgement of `command` into `buf`.
pub fn ack(buf: &mut [u8], command: u8, state: &protocol::State)
    requires
        old(buf)@.len() >= RESPONSE_BYTES_SIZE,
    ensures
        final(buf)@ == response_bytes(CONTROL_ACK, command, *state) + Seq::new(
            (old(buf)@.len() - RESPONSE_BYTES_SIZE) as nat,
            |_i: int| 0u8,
        ),
{
    response(buf, CONTROL_ACK, command, state)
}

// - - - - - - - - - - - - - - - - - - - - - - - - - Packet-based emulation

/// What a whole request packet does to an emulated device, and the control
/// signal that answers it. It differs from `simulate` in two places: the
/// `Begin` rate sits in bytes 3 to 6 of the packet, and `Prepare` only
/// empties the buffer.
pub open spec fn emulate(capacity: u16, s: protocol::State, packet: Seq<u8>) -> (
    protocol::State,
    u8,
) {
    let cmd = packet[0];
    if cmd == COMMAND_PING || cmd == COMMAND_CLEAR {
        (s, CONTROL_ACK)
    } else if cmd == COMMAND_PREPARE {
        (protocol::State { points_buffered: 0, ..s }, CONTROL_ACK)
    } else if cmd == COMMAND_DATA {
        let count = le16(packet[1], packet[2]);
        if count <= room(capacity, s.points_buffered) {
            (protocol::State { points_buffered: (s.points_buffered + count) as u16, ..s }, CONTROL_ACK)
        } else {
            (s, CONTROL_NAK_FULL)
        }
    } else if cmd == COMMAND_BEGIN {
        (
            protocol::State {
                points_per_second: le32(packet[3], packet[4], packet[5], packet[6]) as u32,
                playback_state: PlaybackState::Playing,
                ..s
            },
            CONTROL_ACK,
        )
    } else if cmd == COMMAND_STOP {
        if s.ready() {
            (protocol::State { playback_state: PlaybackState::Idle, ..s }, CONTROL_ACK)
        } else {
            (s, CONTROL_NAK_INVALID)
        }
    } else {
        (s, CONTROL_NAK_INVALID)
    }
}

/// Serves a request packet on an emulated device and writes the response
/// into `out`: the control signal, the packet's command byte and the new
/// state, the rest of `out` zero.
pub fn emulate_packet(
    intrinsics: &Intrinsics,
    state: &mut protocol::State,
    packet: &[u8],
    out: &mut [u8],
)
    requires
        packet@.len() >= 1,
        packet@[0] == COMMAND_DATA ==> packet@.len() >= 3,
        packet@[0] == COMMAND_BEGIN ==> packet@.len() >= 7,
        old(out)@.len() >= RESPONSE_BYTES_SIZE,
    ensures
        *final(state) == emulate(intrinsics.buffer_capacity, *old(state), packet@).0,
        final(out)@ == response_bytes(
            emulate(intrinsics.buffer_capacity, *old(state), packet@).1,
            packet@[0],
            *final(state),
        ) + Seq::new((old(out)@.len() - RESPONSE_BYTES_SIZE) as nat, |_i: int| 0u8),
{
    let cmd = packet[0];
    if cmd == COMMAND_PING || cmd == COMMAND_CLEAR {
        ack(out, cmd, state);
    } else if cmd == COMMAND_PREPARE {
        state.points_buffered = 0;
        ack(out, COMMAND_PREPARE, state);
    } else if cmd == COMMAND_DATA {
        let point_count = read_le16(packet[1], packet[2]);
        let points_buffered = state.points_buffered;
        if point_count <= intrinsics.buffer_capacity.saturating_sub(points_buffered) {
            state.points_buffered = points_buffered + point_count;
            ack(out, COMMAND_DATA, state);
        } else {
            response(out, CONTROL_NAK_FULL, COMMAND_DATA, state);
        }
    } else if cmd == COMMAND_BEGIN {
        state.points_per_second = read_le32(packet[3], packet[4], packet[5], packet[6]);
        state.playback_state = PlaybackState::Playing;
        ack(out, COMMAND_BEGIN, state);
    } else if cmd == COMMAND_STOP {
        if state.is_ready() {
            state.playback_state = PlaybackState::Idle;
            ack(out, COMMAND_STOP, state);
        } else {
            response(out, CONTROL_NAK_INVALID, COMMAND_STOP, state);
        }
    } else {
        response(out, CONTROL_NAK_INVALID, cmd, state);
    }
}

// - - - - - - - - - - - - - - - - - - - - - - - - - - - - - - - -  Wire laws

/// The request a device reads from a frame: its first byte and the header
/// that follows it.
pub open spec fn request_in(frame: Seq<u8>) -> Request {
    request_of(frame[0], frame.subrange(1, frame.len() as int))
}

/// A simulated device reads each frame a client sends as the command it
/// encodes: a begin with its rate, taken to its low 32 bits, a data frame
/// with its point count, and the single-byte commands as themselves.
pub proof fn law_device_reads_client_frames(rate: usize, points: Seq<client::Point>)
    requires
        points.len() <= u16::MAX,
    ensures
        request_in(command_frame(client::Command::Begin { rate })) == (Request::Begin {
            rate: rate as u32,
        }),
        request_in(data_frame(points)) == (Request::Data { count: points.len() as u16 }),
        request_in(command_frame(client::Command::Clear)) == Request::Clear,
        request_in(command_frame(client::Command::Ping)) == Request::Ping,
        request_in(command_frame(client::Command::Prepare)) == Request::Prepare,
        request_in(command_frame(client::Command::Stop)) == Request::Stop,
{
    let begin = command_frame(client::Command::Begin { rate });
    let h = begin.subrange(1, begin.len() as int);
    assert(h[2] == crate::wire::le32_bytes(rate as u32)[0]);
    assert(h[3] == crate::wire::le32_bytes(rate as u32)[1]);
    assert(h[4] == crate::wire::le32_bytes(rate as u32)[2]);
    assert(h[5] == crate::wire::le32_bytes(rate as u32)[3]);
    lemma_le32_roundtrip(rate as u32);
    let data = data_frame(points);
    let d = data.subrange(1, data.len() as int);
    assert(d[0] == crate::wire::le16_bytes(points.len() as u16)[0]);
    assert(d[1] == crate::wire::le16_bytes(points.len() as u16)[1]);
    lemma_le16_roundtrip(points.len() as u16);
}

/// A client reads a device's response as the control signal, the command
/// and the state it was made of, for a state whose protocol byte and flags
/// are zero; the encoding carries neither.
pub proof fn law_client_reads_device_response(signal: ControlSignal, cmd: protocol::Command, s: protocol::State)
    requires
        s.protocol == 0,
        s.light_engine_flags == 0,
        s.playback_flags == 0,
        s.source_flags == 0,
    ensures
        ({
            let bytes = response_bytes(control_signal_byte(signal), command_byte(cmd), s);
            &&& control_signal_from_byte(bytes[0]) == Some(signal)
            &&& command_from_byte(bytes[1]) == Some(cmd)
            &&& state_of(bytes.subrange(2, 22)) == s
        }),
{
    let bytes = response_bytes(control_signal_byte(signal), command_byte(cmd), s);
    assert(bytes.subrange(2, 22) =~= state_bytes(s));
    law_state_roundtrip(s);
}


/// Ping and clear are queries: a simulated device acknowledges them and its
/// state stays as it was, whatever it was.
pub proof fn law_ping_and_clear_change_nothing(capacity: u16, s: protocol::State)
    ensures
        simulate(capacity, s, Request::Ping).0 == s,
        simulate(capacity, s, Request::Clear).0 == s,
        simulate(capacity, s, Request::Ping).1 == ControlSignal::Ack,
        simulate(capacity, s, Request::Clear).1 == ControlSignal::Ack,
{
}

/// A ping or clear packet is acknowledged by an emulated device, whose state
/// stays as it was, whatever it was.
pub proof fn law_emulated_ping_and_clear_change_nothing(capacity: u16, s: protocol::State, packet: Seq<u8>)
    requires
        packet.len() >= 1,
        packet[0] == COMMAND_PING || packet[0] == COMMAND_CLEAR,
    ensures
        emulate(capacity, s, packet).0 == s,
        emulate(capacity, s, packet).1 == CONTROL_ACK,
{
}


/// A data request is taken exactly when its points fit in the room the
/// device's buffer has left, and then only the buffer count grows, by the
/// request's count; otherwise it is refused as full and nothing changes.
pub proof fn law_data_fills_the_room(capacity: u16, s: protocol::State, count: u16)
    ensures
        ({
            let (t, signal) = simulate(capacity, s, Request::Data { count });
            if s.points_buffered + count <= capacity || count == 0 {
                &&& signal == ControlSignal::Ack
                &&& t.points_buffered == s.points_buffered + count
                &&& t == (protocol::State { points_buffered: t.points_buffered, ..s })
            } else {
                signal == ControlSignal::NakFull && t == s
            }
        }),
{
}

/// Begin starts playback at the requested rate and keeps the buffered
/// points; prepare readies the device and empties its buffer; stop idles a
/// ready device and is refused otherwise; an unknown command is refused.
pub proof fn law_requests_move_playback(capacity: u16, s: protocol::State, rate: u32, cmd: u8)
    ensures
        simulate(capacity, s, Request::Begin { rate }) == (
            protocol::State { playback_state: PlaybackState::Playing, points_per_second: rate, ..s },
            ControlSignal::Ack,
        ),
        simulate(capacity, s, Request::Prepare).0.points_buffered == 0,
        simulate(capacity, s, Request::Prepare).0.playback_state == PlaybackState::Prepared,
        simulate(capacity, s, Request::Prepare).0.light_engine_state == LightEngineState::Ready,
        simulate(capacity, s, Request::Prepare).0.points_per_second == s.points_per_second,
        simulate(capacity, s, Request::Prepare).1 == ControlSignal::Ack,
        s.light_engine_flags == 0 && s.light_engine_state == LightEngineState::Ready
            && s.playback_state != PlaybackState::Idle ==> simulate(capacity, s, Request::Stop) == (
            protocol::State { playback_state: PlaybackState::Idle, ..s },
            ControlSignal::Ack,
        ),
        simulate(capacity, s, Request::Unknown(cmd)) == (s, ControlSignal::NakInvalid),
{
}

/// An emulated device takes a data packet exactly when its count (bytes 1
/// and 2, low first) fits in the room left, growing only its buffer count;
/// otherwise it answers full and nothing changes.
pub proof fn law_emulated_data_fills_the_room(capacity: u16, s: protocol::State, packet: Seq<u8>)
    requires
        packet.len() >= 3,
        packet[0] == COMMAND_DATA,
    ensures
        ({
            let count = packet[1] + 256 * packet[2];
            let (t, signal) = emulate(capacity, s, packet);
            if s.points_buffered + count <= capacity || count == 0 {
                &&& signal == CONTROL_ACK
                &&& t.points_buffered == s.points_buffered + count
                &&& t == (protocol::State { points_buffered: t.points_buffered, ..s })
            } else {
                signal == CONTROL_NAK_FULL && t == s
            }
        }),
{
}

/// An emulated device begins playing at the rate in bytes 3 to 6 of a begin
/// packet, low first; a prepare packet only empties its buffer; a stop packet
/// idles a ready device and is refused otherwise; any other byte is refused
/// and changes nothing.
pub proof fn law_emulated_packets_move_playback(capacity: u16, s: protocol::State, packet: Seq<u8>)
    requires
        packet.len() >= 7,
    ensures
        packet[0] == COMMAND_BEGIN ==> emulate(capacity, s, packet) == (
            protocol::State {
                playback_state: PlaybackState::Playing,
                points_per_second: (packet[3] + 256 * packet[4] + 65536 * packet[5] + 16777216
                    * packet[6]) as u32,
                ..s
            },
            CONTROL_ACK,
        ),
        packet[0] == COMMAND_PREPARE ==> emulate(capacity, s, packet) == (
            protocol::State { points_buffered: 0, ..s },
            CONTROL_ACK,
        ),
        packet[0] == COMMAND_STOP && s.light_engine_flags == 0 && s.light_engine_state
            == LightEngineState::Ready && s.playback_state != PlaybackState::Idle ==> emulate(
            capacity,
            s,
            packet,
        ) == (protocol::State { playback_state: PlaybackState::Idle, ..s }, CONTROL_ACK),
        packet[0] == COMMAND_STOP && !(s.light_engine_flags == 0 && s.light_engine_state
            == LightEngineState::Ready && s.playback_state != PlaybackState::Idle) ==> emulate(
            capacity,
            s,
            packet,
        ) == (s, CONTROL_NAK_INVALID),
        packet[0] != COMMAND_PING && packet[0] != COMMAND_CLEAR && packet[0] != COMMAND_PREPARE
            && packet[0] != COMMAND_DATA && packet[0] != COMMAND_BEGIN && packet[0] != COMMAND_STOP
            ==> emulate(capacity, s, packet) == (s, CONTROL_NAK_INVALID),
{
}

} // verus!
