//! The client side of the Etherdream protocol: commands and their frames,
//! point data frames, responses, and the decisions of the network writer.
use vstd::prelude::*;
use crate::circular_buffer::CircularBuffer;
use crate::protocol::{
    self, command_byte, command_from_byte, control_signal_from_byte, state_of, ControlSignal,
    COMMAND_BEGIN, COMMAND_CLEAR, COMMAND_DATA, COMMAND_ESTOP, COMMAND_PING, COMMAND_PREPARE,
    COMMAND_QUEUE_RATE, COMMAND_STOP, RESPONSE_BYTES_SIZE,
};
use crate::wire::{i16_bits, i16_to_bits, le16_bytes, le32_bytes, push_le16, push_le32};

verus! {

/// Default point buffer capacity of a client.
pub const DEFAULT_POINT_BUFFER_CAPACITY: usize = 10000;

/// Default time, in milliseconds, that a command waits for its response.
pub const DEFAULT_COMMAND_TIMEOUT_MS: u64 = 1000;

/// A point: x and y position, then red, green and blue.
pub type Point = (i16, i16, u16, u16, u16);

// - - - - - - - - - - - - - - - - - -  Command, Control Signal and Error Enums

/// Commands with arguments.
#[derive(Clone, Copy, Debug, PartialEq, Eq, Structural)]
pub enum Command {
    Begin { rate: usize },
    Clear,
    Data { count: usize },
    Estop,
    Ping,
    Prepare,
    QueueRate { rate: usize },
    Stop,
}

/// The protocol command that a command with arguments sends.
pub open spec fn command_kind(cmd: Command) -> protocol::Command {
    match cmd {
        Command::Begin { .. } => protocol::Command::Begin,
        Command::Clear => protocol::Command::Clear,
        Command::Data { .. } => protocol::Command::Data,
        Command::Estop => protocol::Command::Estop,
        Command::Ping => protocol::Command::Ping,
        Command::Prepare => protocol::Command::Prepare,
        Command::QueueRate { .. } => protocol::Command::QueueRate,
        Command::Stop => protocol::Command::Stop,
    }
}

impl vstd::std_specs::convert::FromSpecImpl<Command> for protocol::Command {
    open spec fn obeys_from_spec() -> bool {
        true
    }

    open spec fn from_spec(cmd: Command) -> protocol::Command {
        command_kind(cmd)
    }
}

impl From<Command> for protocol::Command {
    fn from(cmd: Command) -> (c: protocol::Command) {
        match cmd {
            Command::Begin { .. } => protocol::Command::Begin,
            Command::Clear => protocol::Command::Clear,
            Command::Data { .. } => protocol::Command::Data,
            Command::Estop => protocol::Command::Estop,
            Command::Ping => protocol::Command::Ping,
            Command::Prepare => protocol::Command::Prepare,
            Command::QueueRate { .. } => protocol::Command::QueueRate,
            Command::Stop => protocol::Command::Stop,
        }
    }
}

#[derive(Debug)]
pub enum Error {
    Command(CommandError),
    Internal(String),
}

#[derive(Debug)]
pub enum CommandError {
    /// The device responded to command with a `nak` and reason.
    Nak(NakReason),
    /// The command timed-out while waiting for a device response.
    Timeout,
}

#[derive(Clone, Copy, Debug, PartialEq, Eq, Structural)]
pub enum NakReason {
    /// The command was refused as the device is in an E-stop.
    Estop,
    /// The point data command was ignored because the device's point buffer is
    /// full.
    Full,
    /// The command was invalid or malformed.
    Invalid,
}

// - - - - - - - - - - - - - - - - - - - - - - - - - - - - - - - - - - -  State

/// The device state as the client last saw it.
#[derive(Clone, Copy, Debug)]
pub struct State {
    inner: protocol::State,
}

impl State {
    /// The protocol state this client state holds.
    pub closed spec fn status(&self) -> protocol::State {
        self.inner
    }

    /// Wraps a state decoded from the device.
    pub fn new(inner: protocol::State) -> (s: Self)
        ensures
            s.status() == inner,
    {
        Self { inner }
    }

    /// Returns the protocol state.
    pub fn protocol_state(&self) -> (s: protocol::State)
        ensures
            s == self.status(),
    {
        self.inner
    }

    /// Returns true if the device is ready to receive point data.
    pub fn is_ready(&self) -> (r: bool)
        ensures
            r == self.status().ready(),
    {
        self.inner.is_ready()
    }

    /// Returns true if the device is playing point data.
    pub fn is_playing(&self) -> (r: bool)
        ensures
            r == self.status().playing(),
    {
        self.inner.is_playing()
    }

    /// Returns the current playback state of the device.
    pub fn playback_state(&self) -> (p: protocol::PlaybackState)
        ensures
            p == self.status().playback_state,
    {
        self.inner.playback_state
    }

    /// Returns the number of points currently buffered in the device.
    pub fn points_buffered(&self) -> (n: usize)
        ensures
            n == self.status().points_buffered,
    {
        self.inner.points_buffered as usize
    }

    /// Returns true if the device shutter is open.
    pub fn is_shutter_open(&self) -> (r: bool)
        ensures
            r == self.status().shutter_open(),
    {
        self.inner.is_shutter_open()
    }

    /// Returns true if the device is in an underflow state.
    pub fn is_underflow(&self) -> (r: bool)
        ensures
            r == self.status().underflow(),
    {
        self.inner.is_underflow()
    }

    /// Returns true if the device is in an e-stop state.
    pub fn is_e_stop(&self) -> (r: bool)
        ensures
            r == self.status().e_stop(),
    {
        self.inner.is_e_stop()
    }

    /// Returns the current rate in which the device is playing point data.
    pub fn points_per_second(&self) -> (n: usize)
        ensures
            n == self.status().points_per_second,
    {
        self.inner.points_per_second as usize
    }

    /// Returns the total number of points played in this client session.
    pub fn points_lifetime(&self) -> (n: usize)
        ensures
            n == self.status().points_lifetime,
    {
        self.inner.points_lifetime as usize
    }

    /// Returns the current data source for the device.
    pub fn source(&self) -> (s: protocol::Source)
        ensures
            s == self.status().source,
    {
        self.inner.source
    }

    /// Returns the current light engine state of the device.
    pub fn light_engine_state(&self) -> (s: protocol::LightEngineState)
        ensures
            s == self.status().light_engine_state,
    {
        self.inner.light_engine_state
    }
}

impl Default for State {
    fn default() -> (s: Self)
        ensures
            s.status() == (protocol::State {
                protocol: 0,
                light_engine_state: protocol::LightEngineState::Ready,
                playback_state: protocol::PlaybackState::Idle,
                source: protocol::Source::Network,
                light_engine_flags: 0,
                playback_flags: 0,
                source_flags: 0,
                points_buffered: 0,
                points_per_second: 0,
                points_lifetime: 0,
            }),
    {
        Self { inner: protocol::State::default() }
    }
}

// - - - - - - - - - - - - - - - - - - - - - - - - - - - - - - - -  Responses

/// Why a response could not be decoded.
#[derive(Clone, Copy, Debug, PartialEq, Eq, Structural)]
pub enum ResponseError {
    /// The first byte is no known control signal.
    UnknownControlSignal(u8),
    /// The second byte is no known command.
    UnknownCommand(u8),
}

/// Decodes a response: its control signal, the command it answers and the
/// device state that follows. An unknown control signal or command is an
/// error that carries the byte.
pub fn decode_response(bytes: &[u8]) -> (r: Result<
    (ControlSignal, protocol::Command, protocol::State),
    ResponseError,
>)
    requires
        bytes@.len() >= RESPONSE_BYTES_SIZE,
    ensures
        match control_signal_from_byte(bytes@[0]) {
            None => r == Err::<(ControlSignal, protocol::Command, protocol::State), ResponseError>(
                ResponseError::UnknownControlSignal(bytes@[0]),
            ),
            Some(signal) => match command_from_byte(bytes@[1]) {
                None => r == Err::<
                    (ControlSignal, protocol::Command, protocol::State),
                    ResponseError,
                >(ResponseError::UnknownCommand(bytes@[1])),
                Some(cmd) => r == Ok::<
                    (ControlSignal, protocol::Command, protocol::State),
                    ResponseError,
                >((signal, cmd, state_of(bytes@.subrange(2, 22)))),
            },
        },
{
    let signal = match ControlSignal::try_from(bytes[0]) {
        Ok(s) => s,
        Err(b) => {
            return Err(ResponseError::UnknownControlSignal(b));
        },
    };
    let command = match protocol::Command::try_from(bytes[1]) {
        Ok(c) => c,
        Err(b) => {
            return Err(ResponseError::UnknownCommand(b));
        },
    };
    let state = protocol::State::from_bytes(&bytes[2..RESPONSE_BYTES_SIZE]);
    Ok((signal, command, state))
}

/// The outcome of a command, given the control signal of its response.
pub open spec fn response_outcome(signal: ControlSignal, state: State) -> Result<State, Error> {
    match signal {
        ControlSignal::Ack => Ok(state),
        ControlSignal::NakEstop => Err(Error::Command(CommandError::Nak(NakReason::Estop))),
        ControlSignal::NakFull => Err(Error::Command(CommandError::Nak(NakReason::Full))),
        ControlSignal::NakInvalid => Err(Error::Command(CommandError::Nak(NakReason::Invalid))),
    }
}

/// An acknowledgement yields the state; a negative acknowledgement yields
/// its reason as an error.
pub fn response_result(signal: ControlSignal, state: State) -> (r: Result<State, Error>)
    ensures
        r == response_outcome(signal, state),
{
    match signal {
        ControlSignal::Ack => Ok(state),
        ControlSignal::NakEstop => Err(Error::Command(CommandError::Nak(NakReason::Estop))),
        ControlSignal::NakFull => Err(Error::Command(CommandError::Nak(NakReason::Full))),
        ControlSignal::NakInvalid => Err(Error::Command(CommandError::Nak(NakReason::Invalid))),
    }
}

// - - - - - - - - - - - - - - - - - - - - - - - - - - - - - - - - -  Frames

/// The bytes a command other than `Data` is sent as: the command byte, then
/// for `Begin` two unused bytes and the rate, for `QueueRate` the rate, each
/// rate as four little-endian bytes of its low 32 bits.
pub open spec fn command_frame(cmd: Command) -> Seq<u8> {
    match cmd {
        Command::Begin { rate } => seq![COMMAND_BEGIN, 0u8, 0u8] + le32_bytes(rate as u32),
        Command::QueueRate { rate } => seq![COMMAND_QUEUE_RATE] + le32_bytes(rate as u32),
        _ => seq![command_byte(command_kind(cmd))],
    }
}

/// The eighteen bytes of one point in a data frame: two unused control
/// bytes, x, y, red, green, blue, an intensity of 0xFFFF and two unused
/// 16-bit fields, each field little-endian.
pub open spec fn point_bytes(p: Point) -> Seq<u8> {
    seq![0u8, 0u8] + le16_bytes(i16_bits(p.0)) + le16_bytes(i16_bits(p.1)) + le16_bytes(p.2)
        + le16_bytes(p.3) + le16_bytes(p.4) + seq![255u8, 255u8, 0u8, 0u8, 0u8, 0u8]
}

/// The bytes of `points`, one after the other.
pub open spec fn points_bytes(points: Seq<Point>) -> Seq<u8>
    decreases points.len(),
{
    if points.len() == 0 {
        Seq::empty()
    } else {
        points_bytes(points.drop_last()) + point_bytes(points.last())
    }
}

/// A data frame: the data command byte, the point count as two
/// little-endian bytes, then the points.
pub open spec fn data_frame(points: Seq<Point>) -> Seq<u8> {
    seq![COMMAND_DATA] + le16_bytes(points.len() as u16) + points_bytes(points)
}

/// Encodes a command other than `Data`.
pub fn encode_command(cmd: Command) -> (bytes: Vec<u8>)
    requires
        !(cmd is Data),
    ensures
        bytes@ == command_frame(cmd),
{
    let mut bytes: Vec<u8> = Vec::new();
    match cmd {
        Command::Begin { rate } => {
            bytes.push(COMMAND_BEGIN);
            bytes.push(0);
            bytes.push(0);
            push_le32(&mut bytes, rate as u32);
        },
        Command::QueueRate { rate } => {
            bytes.push(COMMAND_QUEUE_RATE);
            push_le32(&mut bytes, rate as u32);
        },
        Command::Clear => {
            bytes.push(COMMAND_CLEAR);
        },
        Command::Estop => {
            bytes.push(COMMAND_ESTOP);
        },
        Command::Ping => {
            bytes.push(COMMAND_PING);
        },
        Command::Prepare => {
            bytes.push(COMMAND_PREPARE);
        },
        Command::Stop => {
            bytes.push(COMMAND_STOP);
        },
        Command::Data { .. } => {},
    }
    assert(bytes@ =~= command_frame(cmd));
    bytes
}

/// Appends the eighteen bytes of `p` to `out`.
pub fn encode_point(out: &mut Vec<u8>, p: Point)
    ensures
        final(out)@ == old(out)@ + point_bytes(p),
{
    let ghost start = out@;
    out.push(0);
    out.push(0);
    push_le16(out, i16_to_bits(p.0));
    push_le16(out, i16_to_bits(p.1));
    push_le16(out, p.2);
    push_le16(out, p.3);
    push_le16(out, p.4);
    out.push(255);
    out.push(255);
    out.push(0);
    out.push(0);
    out.push(0);
    out.push(0);
    assert(out@ =~= start + point_bytes(p));
}

// - - - - - - - - - - - - - - - - - - - - - - - - - - - - - - - - - -  Writer

/// How many points the device can take now: the accumulated count, capped
/// by the room left in the device's buffer, or none while it is not ready.
pub open spec fn send_count(state: protocol::State, accumulated: int, buffer_capacity: int) -> int {
    if state.ready() {
        let room = if buffer_capacity > state.points_buffered {
            buffer_capacity - state.points_buffered
        } else {
            0
        };
        if accumulated < room {
            accumulated
        } else {
            room
        }
    } else {
        0
    }
}

/// The writer never sends a device more points than were flushed, nor more
/// than the device's buffer has room for, and sends none to a device that is
/// not ready.
pub proof fn law_send_count_within_room(state: protocol::State, accumulated: int, buffer_capacity: int)
    requires
        accumulated >= 0,
    ensures
        0 <= send_count(state, accumulated, buffer_capacity) <= accumulated,
        send_count(state, accumulated, buffer_capacity) + state.points_buffered <= buffer_capacity
            || send_count(state, accumulated, buffer_capacity) == 0,
        !state.ready() ==> send_count(state, accumulated, buffer_capacity) == 0,
{
}

/// Calculates the device's available capacity, and returns the minimum of
/// that and the accumulated point count.
pub fn calculate_point_send_count(
    state: &State,
    point_send_count_accumulated: usize,
    buffer_capacity: usize,
) -> (n: usize)
    ensures
        n == send_count(state.status(), point_send_count_accumulated as int, buffer_capacity as int),
{
    if state.is_ready() {
        let room = buffer_capacity.saturating_sub(state.points_buffered());
        if point_send_count_accumulated < room {
            point_send_count_accumulated
        } else {
            room
        }
    } else {
        0
    }
}

/// What the writer learned from its command channel.
#[derive(Clone, Copy, Debug)]
pub enum WriterEvent {
    /// A command was received.
    Received(Command),
    /// No command was waiting; `ping_due` tells whether the last write lies
    /// more than the auto-ping interval back.
    Idle { ping_due: bool },
    /// The command channel has closed.
    Closed,
}

/// What the writer does next.
#[derive(Debug)]
pub enum WriterAction {
    /// Write these bytes to the device and await its acknowledgement.
    Send(Vec<u8>),
    /// Nothing to write; yield.
    Wait,
    /// Stop the writer.
    Exit,
}

/// The writer's memory between steps: the points flushed by the client and
/// not yet sent to the device, and whether a frame it sent awaits the
/// device's answer.
#[derive(Clone, Copy, Debug)]
pub struct Writer {
    pub point_send_count_accumulated: usize,
    pub awaiting_ack: bool,
}

/// The accumulated count once `event` is taken in.
pub open spec fn accumulated_after(accumulated: int, event: WriterEvent) -> int {
    match event {
        WriterEvent::Received(Command::Data { count }) => accumulated + count,
        _ => accumulated,
    }
}

/// The smaller of two integers.
pub open spec fn min(a: int, b: int) -> int {
    if a < b {
        a
    } else {
        b
    }
}

/// What one writer decision does: from the accumulated count `acc0` and the
/// client's points `before`, given `event` and the device's `status` and
/// buffer capacity, it takes `action` and leaves the count `acc1` and the
/// points `after`.
///
/// A closed channel stops the writer. A command other than `Data` is sent as
/// its frame. A `Data` command adds its count to the points awaiting
/// transmission; then, as when no command was waiting, as many of them as
/// the device can take are taken from the point buffer (no more than it
/// holds) and sent as one data frame. When none can be taken and no command
/// was waiting, a ping is sent if one is due.
pub open spec fn writer_decision(
    acc0: usize,
    event: WriterEvent,
    status: protocol::State,
    buffer_capacity: u16,
    before: Seq<Point>,
    action: WriterAction,
    acc1: usize,
    after: Seq<Point>,
) -> bool {
    let acc = accumulated_after(acc0 as int, event);
    let n = send_count(status, acc, buffer_capacity as int);
    let k = min(n, before.len() as int);
    match event {
        WriterEvent::Closed => action is Exit && acc1 == acc0 && after == before,
        WriterEvent::Received(cmd) if !(cmd is Data) => (action matches WriterAction::Send(b)
            && b@ == command_frame(cmd)) && acc1 == acc0 && after == before,
        _ => if n > 0 {
            &&& action matches WriterAction::Send(b) && b@ == data_frame(before.take(k))
            &&& after == before.skip(k)
            &&& acc1 == acc - k
        } else {
            &&& after == before
            &&& acc1 == acc
            &&& (if event matches WriterEvent::Idle { ping_due } && ping_due {
                action matches WriterAction::Send(b) && b@ == seq![COMMAND_PING]
            } else {
                action is Wait
            })
        },
    }
}

impl Writer {
    pub fn new() -> (w: Writer)
        ensures
            w.point_send_count_accumulated == 0,
            !w.awaiting_ack,
    {
        Writer { point_send_count_accumulated: 0, awaiting_ack: false }
    }

    /// Whether the writer may send: every frame it sent has been answered.
    pub fn can_send(&self) -> (r: bool)
        ensures
            r == !self.awaiting_ack,
    {
        !self.awaiting_ack
    }

    /// Takes in that the device answered: the frame in flight, if any, is
    /// acknowledged.
    pub fn on_response(&mut self)
        ensures
            *final(self) == (Writer { awaiting_ack: false, ..*old(self) }),
    {
        self.awaiting_ack = false;
    }

    /// One decision of the writer, given what the command channel yielded,
    /// the device state and buffer capacity, and the client's point buffer
    /// (see `writer_decision`). It is only taken when no frame is in flight,
    /// and a frame it sends is in flight until `on_response`.
    pub fn step(
        &mut self,
        event: WriterEvent,
        state: &State,
        buffer_capacity: u16,
        points: &mut CircularBuffer<Point>,
    ) -> (action: WriterAction)
        requires
            !old(self).awaiting_ack,
            old(points).wf(),
            accumulated_after(old(self).point_send_count_accumulated as int, event) <= usize::MAX,
        ensures
            final(points).wf(),
            final(points).cap() == old(points).cap(),
            writer_decision(
                old(self).point_send_count_accumulated,
                event,
                state.status(),
                buffer_capacity,
                old(points)@,
                action,
                final(self).point_send_count_accumulated,
                final(points)@,
            ),
            final(self).awaiting_ack == (action is Send),
    {
        let action = self.decide(event, state, buffer_capacity, points);
        if let WriterAction::Send(_) = action {
            self.awaiting_ack = true;
        }
        action
    }

    fn decide(
        &mut self,
        event: WriterEvent,
        state: &State,
        buffer_capacity: u16,
        points: &mut CircularBuffer<Point>,
    ) -> (action: WriterAction)
        requires
            old(points).wf(),
            accumulated_after(old(self).point_send_count_accumulated as int, event) <= usize::MAX,
        ensures
            final(points).wf(),
            final(points).cap() == old(points).cap(),
            writer_decision(
                old(self).point_send_count_accumulated,
                event,
                state.status(),
                buffer_capacity,
                old(points)@,
                action,
                final(self).point_send_count_accumulated,
                final(points)@,
            ),
            final(self).awaiting_ack == old(self).awaiting_ack,
    {
        let send: usize;
        let mut committed: Option<Vec<u8>> = None;
        match event {
            WriterEvent::Closed => {
                return WriterAction::Exit;
            },
            WriterEvent::Received(Command::Data { count }) => {
                self.point_send_count_accumulated = self.point_send_count_accumulated + count;
                send = calculate_point_send_count(
                    state,
                    self.point_send_count_accumulated,
                    buffer_capacity as usize,
                );
            },
            WriterEvent::Received(cmd) => {
                return WriterAction::Send(encode_command(cmd));
            },
            WriterEvent::Idle { ping_due } => {
                send = calculate_point_send_count(
                    state,
                    self.point_send_count_accumulated,
                    buffer_capacity as usize,
                );
                if send == 0 && ping_due {
                    let mut ping: Vec<u8> = Vec::new();
                    ping.push(COMMAND_PING);
                    committed = Some(ping);
                }
            },
        }
        if committed.is_none() && send > 0 {
            let ghost start = points@;
            let mut frame: Vec<u8> = Vec::new();
            frame.push(COMMAND_DATA);
            frame.push(0);
            frame.push(0);
            let mut sent: usize = 0;
            while sent < send && !points.is_empty()
                invariant
                    points.wf(),
                    points.cap() == old(points).cap(),
                    start == old(points)@,
                    sent <= send,
                    send <= buffer_capacity,
                    sent <= start.len(),
                    points@ == start.skip(sent as int),
                    frame@ == seq![COMMAND_DATA, 0u8, 0u8] + points_bytes(start.take(sent as int)),
                decreases send - sent,
            {
                let p = match points.pop() {
                    Some(p) => p,
                    None => (0, 0, 0, 0, 0),
                };
                proof {
                    assert(p == start[sent as int]);
                    assert(start.take(sent + 1).drop_last() =~= start.take(sent as int));
                    assert(points@ =~= start.skip(sent + 1));
                }
                encode_point(&mut frame, p);
                sent = sent + 1;
                proof {
                    assert(frame@ =~= seq![COMMAND_DATA, 0u8, 0u8] + points_bytes(
                        start.take(sent as int),
                    ));
                }
            }
            let count = sent as u16;
            frame.set(1, (count % 256) as u8);
            frame.set(2, (count / 256) as u8);
            self.point_send_count_accumulated = self.point_send_count_accumulated.saturating_sub(
                sent,
            );
            proof {
                assert(start.take(sent as int).len() == sent);
                assert(frame@ =~= data_frame(start.take(sent as int)));
            }
            return WriterAction::Send(frame);
        }
        match committed {
            Some(bytes) => WriterAction::Send(bytes),
            None => WriterAction::Wait,
        }
    }
}

// - - - - - - - - - - - - - - - - - - - - - - - - - - - - -  Frames in flight

/// What happens to a writer, as far as frames in flight go: a step sends a
/// frame (`Sent`, `step` returned `Send`), the device answers
/// (`Answered`, `on_response`), or a step sends nothing (`Quiet`).
pub enum WriterOp {
    Sent,
    Answered,
    Quiet,
}

/// Whether a frame is in flight after `ops`, starting from a new writer:
/// this is what `awaiting_ack` holds, by the contracts of `new`, `step` and
/// `on_response`.
pub open spec fn in_flight_after(ops: Seq<WriterOp>) -> bool
    decreases ops.len(),
{
    if ops.len() == 0 {
        false
    } else {
        match ops.last() {
            WriterOp::Sent => true,
            WriterOp::Answered => false,
            WriterOp::Quiet => in_flight_after(ops.drop_last()),
        }
    }
}

/// A history the contracts allow: `step` requires `!awaiting_ack`, so every
/// frame is sent while none is in flight.
pub open spec fn admissible(ops: Seq<WriterOp>) -> bool {
    forall|i: int| 0 <= i < ops.len() && ops[i] is Sent ==> !in_flight_after(#[trigger] ops.take(i))
}

/// A frame sent and not answered since stays in flight.
proof fn lemma_sent_stays_in_flight(ops: Seq<WriterOp>, i: int, m: int)
    requires
        0 <= i < m <= ops.len(),
        ops[i] is Sent,
        forall|k: int| i < k < m ==> !(ops[k] is Answered),
    ensures
        in_flight_after(ops.take(m)),
    decreases m - i,
{
    let t = ops.take(m);
    assert(t.last() == ops[m - 1]);
    if m > i + 1 && !(ops[m - 1] is Sent) {
        lemma_sent_stays_in_flight(ops, i, m - 1);
        assert(t.drop_last() =~= ops.take(m - 1));
    }
}

/// At most one frame is in flight: between any two frames a writer sends,
/// the device has answered.
pub proof fn law_one_frame_in_flight(ops: Seq<WriterOp>, i: int, j: int)
    requires
        admissible(ops),
        0 <= i < j < ops.len(),
        ops[i] is Sent,
        ops[j] is Sent,
    ensures
        exists|k: int| i < k < j && ops[k] is Answered,
{
    if !(exists|k: int| i < k < j && ops[k] is Answered) {
        lemma_sent_stays_in_flight(ops, i, j);
        assert(!in_flight_after(ops.take(j)));
    }
}


/// A ready device — no light engine flag set, its light engine ready, and
/// its playback prepared or playing — is sent every accumulated point its
/// buffer has room for: the smaller of the accumulated count and the room
/// left. Playing does not stop the stream.
pub proof fn law_ready_device_gets_all_it_has_room_for(
    state: protocol::State,
    accumulated: int,
    buffer_capacity: int,
)
    requires
        accumulated >= 0,
        state.light_engine_flags == 0,
        state.light_engine_state == protocol::LightEngineState::Ready,
        state.playback_state == protocol::PlaybackState::Prepared || state.playback_state
            == protocol::PlaybackState::Playing,
    ensures
        ({
            let room = if buffer_capacity > state.points_buffered {
                buffer_capacity - state.points_buffered
            } else {
                0
            };
            let n = send_count(state, accumulated, buffer_capacity);
            &&& n <= accumulated
            &&& n <= room
            &&& (n == accumulated || n == room)
        }),
{
}


/// What a writer decision does to the points it owes: it takes the oldest
/// points from the client's buffer, as many as it owes, as the device has
/// room for and as the buffer holds, and sends exactly those in one data
/// frame (an empty one when the buffer holds none); a device that is not
/// ready gets none. Only when the device can take no point may it ping, and
/// then exactly when a ping is due and no command was waiting; a command
/// other than `Data` is sent as is and moves no point.
pub proof fn law_writer_sends_owed_points(
    acc0: usize,
    event: WriterEvent,
    status: protocol::State,
    buffer_capacity: u16,
    before: Seq<Point>,
    action: WriterAction,
    acc1: usize,
    after: Seq<Point>,
)
    requires
        writer_decision(acc0, event, status, buffer_capacity, before, action, acc1, after),
    ensures
        ({
            let owed = accumulated_after(acc0 as int, event);
            let sent = before.len() - after.len();
            let ready = status.light_engine_flags == 0 && status.light_engine_state
                == protocol::LightEngineState::Ready && status.playback_state
                != protocol::PlaybackState::Idle;
            let room = if buffer_capacity > status.points_buffered {
                buffer_capacity - status.points_buffered
            } else {
                0
            };
            &&& 0 <= sent <= before.len()
            &&& after == before.skip(sent)
            &&& (match event {
                WriterEvent::Closed => action is Exit && sent == 0 && acc1 == acc0,
                WriterEvent::Received(cmd) if !(cmd is Data) => sent == 0 && acc1 == acc0
                    && (action matches WriterAction::Send(b) && b@ == command_frame(cmd)),
                _ => {
                    &&& acc1 == owed - sent
                    &&& (!ready ==> sent == 0)
                    &&& (ready ==> sent <= owed && sent <= room && (sent == owed || sent == room
                        || sent == before.len()))
                    &&& (sent > 0 ==> (action matches WriterAction::Send(b) && b@ == data_frame(
                        before.take(sent),
                    )))
                    &&& (sent == 0 && ready && owed > 0 && room > 0 ==> before.len() == 0)
                    &&& (ready && owed > 0 && room > 0 ==> (action matches WriterAction::Send(b)
                        && b@ == data_frame(before.take(sent))))
                    &&& (!(ready && owed > 0 && room > 0) ==> sent == 0 && (action is Send
                        <==> event == (WriterEvent::Idle { ping_due: true })))
                },
            })
        }),
{
    let owed = accumulated_after(acc0 as int, event);
    let n = send_count(status, owed, buffer_capacity as int);
    let k = min(n, before.len() as int);
    law_send_count_within_room(status, owed, buffer_capacity as int);
    if n > 0 {
        assert(before.skip(k).len() == before.len() - k);
    }
}

} // verus!
