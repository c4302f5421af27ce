//! Network models of the Etherdream communication protocol: command and
//! control bytes, the intrinsic properties a DAC broadcasts and the state it
//! reports, with their decoders.
use vstd::prelude::*;
use crate::wire::{le16, le32, le16_bytes, le32_bytes, read_le16, read_le32};

verus! {

// Network ports
pub const BROADCAST_PORT: u16 = 7654;
pub const CLIENT_PORT: u16 = 7765;

// Command signals
pub const COMMAND_BEGIN: u8 = 98;
pub const COMMAND_CLEAR: u8 = 99;
pub const COMMAND_DATA: u8 = 100;
pub const COMMAND_ESTOP: u8 = 48;
pub const COMMAND_PING: u8 = 63;
pub const COMMAND_PREPARE: u8 = 112;
pub const COMMAND_QUEUE_RATE: u8 = 113;
pub const COMMAND_STOP: u8 = 115;

// Control signals
pub const CONTROL_ACK: u8 = 97;
pub const CONTROL_NAK_ESTOP: u8 = 33;
pub const CONTROL_NAK_FULL: u8 = 70;
pub const CONTROL_NAK_INVALID: u8 = 73;

// Network message sizes
pub const INTRINSIC_BYTES_SIZE: usize = 16;
pub const POINT_DATA_BYTES_SIZE: usize = 18;
pub const RESPONSE_BYTES_SIZE: usize = 22;
pub const STATE_BYTES_SIZE: usize = 20;
pub const BROADCAST_BYTES_SIZE: usize = 36;

// - - - - - - - - - - - - - - - - - - - - - - - - - - - - - - - - - - Command

/// The commands an Etherdream DAC understands.
#[derive(Clone, Copy, Debug, PartialEq, Eq, Structural)]
pub enum Command {
    Begin,
    Clear,
    Data,
    Estop,
    Ping,
    Prepare,
    QueueRate,
    Stop,
}

/// The byte that identifies a command on the wire.
pub open spec fn command_byte(cmd: Command) -> u8 {
    match cmd {
        Command::Begin => COMMAND_BEGIN,
        Command::Clear => COMMAND_CLEAR,
        Command::Data => COMMAND_DATA,
        Command::Estop => COMMAND_ESTOP,
        Command::Ping => COMMAND_PING,
        Command::Prepare => COMMAND_PREPARE,
        Command::QueueRate => COMMAND_QUEUE_RATE,
        Command::Stop => COMMAND_STOP,
    }
}

/// The command a byte identifies, if any.
pub open spec fn command_from_byte(byte: u8) -> Option<Command> {
    if byte == COMMAND_BEGIN {
        Some(Command::Begin)
    } else if byte == COMMAND_CLEAR {
        Some(Command::Clear)
    } else if byte == COMMAND_DATA {
        Some(Command::Data)
    } else if byte == COMMAND_ESTOP {
        Some(Command::Estop)
    } else if byte == COMMAND_PING {
        Some(Command::Ping)
    } else if byte == COMMAND_PREPARE {
        Some(Command::Prepare)
    } else if byte == COMMAND_QUEUE_RATE {
        Some(Command::QueueRate)
    } else if byte == COMMAND_STOP {
        Some(Command::Stop)
    } else {
        None
    }
}

impl Command {
    /// Decodes a command byte; an unknown byte is handed back as the error.
    pub fn try_from(byte: u8) -> (r: Result<Command, u8>)
        ensures
            match command_from_byte(byte) {
                Some(c) => r == Ok::<Command, u8>(c),
                None => r == Err::<Command, u8>(byte),
            },
    {
        match byte {
            COMMAND_BEGIN => Ok(Command::Begin),
            COMMAND_CLEAR => Ok(Command::Clear),
            COMMAND_DATA => Ok(Command::Data),
            COMMAND_ESTOP => Ok(Command::Estop),
            COMMAND_PING => Ok(Command::Ping),
            COMMAND_PREPARE => Ok(Command::Prepare),
            COMMAND_QUEUE_RATE => Ok(Command::QueueRate),
            COMMAND_STOP => Ok(Command::Stop),
            other => Err(other),
        }
    }

    /// The byte that identifies this command on the wire.
    pub fn to_byte(self) -> (b: u8)
        ensures
            b == command_byte(self),
    {
        match self {
            Command::Begin => COMMAND_BEGIN,
            Command::Clear => COMMAND_CLEAR,
            Command::Data => COMMAND_DATA,
            Command::Estop => COMMAND_ESTOP,
            Command::Ping => COMMAND_PING,
            Command::Prepare => COMMAND_PREPARE,
            Command::QueueRate => COMMAND_QUEUE_RATE,
            Command::Stop => COMMAND_STOP,
        }
    }
}

// - - - - - - - - - - - - - - - - - - - - - - - - - - - - - - Control Signal

/// The control signal that opens every DAC response.
#[derive(Clone, Copy, Debug, PartialEq, Eq, Structural)]
pub enum ControlSignal {
    Ack,
    NakEstop,
    NakFull,
    NakInvalid,
}

/// The byte that identifies a control signal on the wire.
pub open spec fn control_signal_byte(signal: ControlSignal) -> u8 {
    match signal {
        ControlSignal::Ack => CONTROL_ACK,
        ControlSignal::NakEstop => CONTROL_NAK_ESTOP,
        ControlSignal::NakFull => CONTROL_NAK_FULL,
        ControlSignal::NakInvalid => CONTROL_NAK_INVALID,
    }
}

/// The control signal a byte identifies, if any.
pub open spec fn control_signal_from_byte(byte: u8) -> Option<ControlSignal> {
    if byte == CONTROL_ACK {
        Some(ControlSignal::Ack)
    } else if byte == CONTROL_NAK_ESTOP {
        Some(ControlSignal::NakEstop)
    } else if byte == CONTROL_NAK_FULL {
        Some(ControlSignal::NakFull)
    } else if byte == CONTROL_NAK_INVALID {
        Some(ControlSignal::NakInvalid)
    } else {
        None
    }
}

impl ControlSignal {
    /// Decodes a control byte; an unknown byte is handed back as the error.
    pub fn try_from(byte: u8) -> (r: Result<ControlSignal, u8>)
        ensures
            match control_signal_from_byte(byte) {
                Some(s) => r == Ok::<ControlSignal, u8>(s),
                None => r == Err::<ControlSignal, u8>(byte),
            },
    {
        match byte {
            CONTROL_ACK => Ok(ControlSignal::Ack),
            CONTROL_NAK_ESTOP => Ok(ControlSignal::NakEstop),
            CONTROL_NAK_FULL => Ok(ControlSignal::NakFull),
            CONTROL_NAK_INVALID => Ok(ControlSignal::NakInvalid),
            other => Err(other),
        }
    }

    /// The byte that identifies this control signal on the wire.
    pub fn to_byte(self) -> (b: u8)
        ensures
            b == control_signal_byte(self),
    {
        match self {
            ControlSignal::Ack => CONTROL_ACK,
            ControlSignal::NakEstop => CONTROL_NAK_ESTOP,
            ControlSignal::NakFull => CONTROL_NAK_FULL,
            ControlSignal::NakInvalid => CONTROL_NAK_INVALID,
        }
    }
}

// - - - - - - - - - - - - - - - - - - - - - - - - - - - - - Light Engine State

#[derive(Clone, Copy, Debug, PartialEq, Eq, Structural)]
pub enum LightEngineState {
    Ready,
    WarmUp,
    CoolDown,
    Estop,
}

/// The light engine state a status byte reports; every byte past 2 is an
/// E-stop.
pub open spec fn light_engine_state_of(byte: u8) -> LightEngineState {
    if byte == 0 {
        LightEngineState::Ready
    } else if byte == 1 {
        LightEngineState::WarmUp
    } else if byte == 2 {
        LightEngineState::CoolDown
    } else {
        LightEngineState::Estop
    }
}

/// The status byte of a light engine state.
pub open spec fn light_engine_state_byte(s: LightEngineState) -> u8 {
    match s {
        LightEngineState::Ready => 0,
        LightEngineState::WarmUp => 1,
        LightEngineState::CoolDown => 2,
        LightEngineState::Estop => 3,
    }
}

impl LightEngineState {
    pub fn from_byte(byte: u8) -> (s: Self)
        ensures
            s == light_engine_state_of(byte),
    {
        match byte {
            0 => LightEngineState::Ready,
            1 => LightEngineState::WarmUp,
            2 => LightEngineState::CoolDown,
            _ => LightEngineState::Estop,
        }
    }

    /// The status byte that reports this state.
    pub fn to_byte(self) -> (b: u8)
        ensures
            b == light_engine_state_byte(self),
    {
        match self {
            LightEngineState::Ready => 0,
            LightEngineState::WarmUp => 1,
            LightEngineState::CoolDown => 2,
            LightEngineState::Estop => 3,
        }
    }
}

impl vstd::std_specs::convert::FromSpecImpl<u8> for LightEngineState {
    open spec fn obeys_from_spec() -> bool {
        true
    }

    open spec fn from_spec(byte: u8) -> LightEngineState {
        light_engine_state_of(byte)
    }
}

impl From<u8> for LightEngineState {
    fn from(byte: u8) -> (s: LightEngineState) {
        LightEngineState::from_byte(byte)
    }
}

impl Default for LightEngineState {
    fn default() -> (s: Self)
        ensures
            s == LightEngineState::Ready,
    {
        LightEngineState::Ready
    }
}

// - - - - - - - - - - - - - - - - - - - - - - - - - - - - - - - Playback State

#[derive(Clone, Copy, Debug, PartialEq, Eq, Structural)]
pub enum PlaybackState {
    Idle,
    Prepared,
    Playing,
}

/// The playback state a status byte reports; every byte past 1 is playing.
pub open spec fn playback_state_of(byte: u8) -> PlaybackState {
    if byte == 0 {
        PlaybackState::Idle
    } else if byte == 1 {
        PlaybackState::Prepared
    } else {
        PlaybackState::Playing
    }
}

/// The status byte of a playback state.
pub open spec fn playback_state_byte(s: PlaybackState) -> u8 {
    match s {
        PlaybackState::Idle => 0,
        PlaybackState::Prepared => 1,
        PlaybackState::Playing => 2,
    }
}

impl PlaybackState {
    pub fn from_byte(byte: u8) -> (s: Self)
        ensures
            s == playback_state_of(byte),
    {
        match byte {
            0 => PlaybackState::Idle,
            1 => PlaybackState::Prepared,
            _ => PlaybackState::Playing,
        }
    }

    /// The status byte that reports this state.
    pub fn to_byte(self) -> (b: u8)
        ensures
            b == playback_state_byte(self),
    {
        match self {
            PlaybackState::Idle => 0,
            PlaybackState::Prepared => 1,
            PlaybackState::Playing => 2,
        }
    }
}

impl vstd::std_specs::convert::FromSpecImpl<u8> for PlaybackState {
    open spec fn obeys_from_spec() -> bool {
        true
    }

    open spec fn from_spec(byte: u8) -> PlaybackState {
        playback_state_of(byte)
    }
}

impl From<u8> for PlaybackState {
    fn from(byte: u8) -> (s: PlaybackState) {
        PlaybackState::from_byte(byte)
    }
}

impl Default for PlaybackState {
    fn default() -> (s: Self)
        ensures
            s == PlaybackState::Idle,
    {
        PlaybackState::Idle
    }
}

// - - - - - - - - - - - - - - - - - - - - - - - - - - - - - - - - - - - Source

#[derive(Clone, Copy, Debug, PartialEq, Eq, Structural)]
pub enum Source {
    Network,
    Ilda,
    Internal,
}

/// The playback source a status byte reports; every byte past 1 is internal.
pub open spec fn source_of(byte: u8) -> Source {
    if byte == 0 {
        Source::Network
    } else if byte == 1 {
        Source::Ilda
    } else {
        Source::Internal
    }
}

/// The status byte of a playback source.
pub open spec fn source_byte(s: Source) -> u8 {
    match s {
        Source::Network => 0,
        Source::Ilda => 1,
        Source::Internal => 2,
    }
}

impl Source {
    pub fn from_byte(byte: u8) -> (s: Self)
        ensures
            s == source_of(byte),
    {
        match byte {
            0 => Source::Network,
            1 => Source::Ilda,
            _ => Source::Internal,
        }
    }

    /// The status byte that reports this source.
    pub fn to_byte(self) -> (b: u8)
        ensures
            b == source_byte(self),
    {
        match self {
            Source::Network => 0,
            Source::Ilda => 1,
            Source::Internal => 2,
        }
    }
}

impl vstd::std_specs::convert::FromSpecImpl<u8> for Source {
    open spec fn obeys_from_spec() -> bool {
        true
    }

    open spec fn from_spec(byte: u8) -> Source {
        source_of(byte)
    }
}

impl From<u8> for Source {
    fn from(byte: u8) -> (s: Source) {
        Source::from_byte(byte)
    }
}

impl Default for Source {
    fn default() -> (s: Self)
        ensures
            s == Source::Network,
    {
        Source::Network
    }
}

// - - - - - - - - - - - - - - - - - - - - - - - - - - - - - - - - - -  Version

#[derive(Clone, Copy, Debug, PartialEq, Eq, Structural)]
pub struct Version {
    pub hardware: u16,
    pub software: u16,
}

impl Version {
    pub fn new(hardware_version: u16, software_version: u16) -> (v: Self)
        ensures
            v.hardware == hardware_version,
            v.software == software_version,
    {
        Self { hardware: hardware_version, software: software_version }
    }

    /// Builds a version from `[hardware, software]`.
    pub fn from_pair(parts: [u16; 2]) -> (v: Self)
        ensures
            v.hardware == parts@[0],
            v.software == parts@[1],
    {
        Version::new(parts[0], parts[1])
    }
}

impl vstd::std_specs::convert::FromSpecImpl<[u16; 2]> for Version {
    open spec fn obeys_from_spec() -> bool {
        true
    }

    open spec fn from_spec(parts: [u16; 2]) -> Version {
        Version { hardware: parts@[0], software: parts@[1] }
    }
}

impl From<[u16; 2]> for Version {
    fn from(parts: [u16; 2]) -> (v: Version) {
        Version::from_pair(parts)
    }
}

impl Default for Version {
    fn default() -> (v: Self)
        ensures
            v.hardware == 0,
            v.software == 0,
    {
        Self { hardware: 0, software: 0 }
    }
}

// - - - - - - - - - - - - - - - - - - - - - - - - - - - - - - - -  MAC Address

#[derive(Clone, Copy, Debug)]
pub struct MacAddress {
    inner: [u8; 6],
}

impl View for MacAddress {
    type V = Seq<u8>;

    closed spec fn view(&self) -> Seq<u8> {
        self.inner@
    }
}

impl MacAddress {
    pub fn new(address: [u8; 6]) -> (m: Self)
        ensures
            m@ == address@,
    {
        Self { inner: address }
    }

    pub fn as_slice(&self) -> (s: &[u8])
        ensures
            s@ == self@,
            s@.len() == 6,
    {
        self.inner.as_slice()
    }

    /// The six bytes of the address.
    pub fn octets(&self) -> (a: [u8; 6])
        ensures
            a@ == self@,
    {
        self.inner
    }
}

/// A MAC address has six bytes.
pub proof fn lemma_mac_address_len(m: MacAddress)
    ensures
        m@.len() == 6,
{
}

/// Two MAC addresses with the same bytes are the same address.
pub proof fn lemma_mac_address_view_eq(a: MacAddress, b: MacAddress)
    requires
        a@ == b@,
    ensures
        a == b,
{
    assert(a.inner =~= b.inner);
}

impl vstd::std_specs::cmp::PartialEqSpecImpl for MacAddress {
    open spec fn obeys_eq_spec() -> bool {
        true
    }

    open spec fn eq_spec(&self, other: &MacAddress) -> bool {
        self@ == other@
    }
}

impl PartialEq for MacAddress {
    fn eq(&self, other: &MacAddress) -> (r: bool) {
        let a = &self.inner;
        let b = &other.inner;
        let r = a[0] == b[0] && a[1] == b[1] && a[2] == b[2] && a[3] == b[3] && a[4] == b[4] && a[5]
            == b[5];
        proof {
            if r {
                assert(a@ =~= b@);
            }
        }
        r
    }
}

impl Eq for MacAddress {

}

impl vstd::std_specs::convert::FromSpecImpl<[u8; 6]> for MacAddress {
    open spec fn obeys_from_spec() -> bool {
        true
    }

    closed spec fn from_spec(address: [u8; 6]) -> MacAddress {
        MacAddress { inner: address }
    }
}

impl From<[u8; 6]> for MacAddress {
    fn from(address: [u8; 6]) -> (m: MacAddress) {
        MacAddress { inner: address }
    }
}

impl Default for MacAddress {
    fn default() -> (m: Self)
        ensures
            m@ == seq![0u8, 0u8, 0u8, 0u8, 0u8, 0u8],
    {
        let m = Self { inner: [0, 0, 0, 0, 0, 0] };
        assert(m@ =~= seq![0u8, 0u8, 0u8, 0u8, 0u8, 0u8]);
        m
    }
}

// - - - - - - - - - - - - - - - - - - - - - - - - - - - - - - - - - Intrinsics

/// Describes an Etherdream DAC's intrinsic properties, as provided by its
/// network broadcast message.
#[derive(Clone, Copy, Debug)]
pub struct Intrinsics {
    /// MAC address of the Etherdream DAC.
    pub mac_address: MacAddress,
    /// Hardware and software version for the Etherdream DAC.
    pub version: Version,
    /// Maximum capacity of the Etherdream DACs point buffer.
    pub buffer_capacity: u16,
    /// Maximum number of points the Etherdream DAC can process per second.
    pub max_points_per_second: u32,
}

/// `i` is what the first sixteen bytes of `bytes` describe: the MAC address,
/// the hardware and software versions, the buffer capacity and the maximum
/// point rate, each number little-endian.
pub open spec fn intrinsics_match(i: Intrinsics, bytes: Seq<u8>) -> bool {
    &&& i.mac_address@ == bytes.subrange(0, 6)
    &&& i.version.hardware == le16(bytes[6], bytes[7])
    &&& i.version.software == le16(bytes[8], bytes[9])
    &&& i.buffer_capacity == le16(bytes[10], bytes[11])
    &&& i.max_points_per_second == le32(bytes[12], bytes[13], bytes[14], bytes[15])
}

impl Intrinsics {
    /// Decodes a slice of bytes into an `Intrinsics` model.
    pub fn from_bytes(bytes: &[u8]) -> (i: Self)
        requires
            bytes@.len() >= INTRINSIC_BYTES_SIZE,
        ensures
            intrinsics_match(i, bytes@),
    {
        let mac = MacAddress::new([bytes[0], bytes[1], bytes[2], bytes[3], bytes[4], bytes[5]]);
        assert(mac@ =~= bytes@.subrange(0, 6));
        Self {
            buffer_capacity: read_le16(bytes[10], bytes[11]),
            mac_address: mac,
            max_points_per_second: read_le32(bytes[12], bytes[13], bytes[14], bytes[15]),
            version: Version::new(read_le16(bytes[6], bytes[7]), read_le16(bytes[8], bytes[9])),
        }
    }
}

impl Default for Intrinsics {
    fn default() -> (i: Self)
        ensures
            i.mac_address@ == seq![0u8, 0u8, 0u8, 0u8, 0u8, 0u8],
            i.version.hardware == 0,
            i.version.software == 0,
            i.buffer_capacity == 0,
            i.max_points_per_second == 0,
    {
        Self {
            mac_address: MacAddress::default(),
            version: Version::default(),
            buffer_capacity: 0,
            max_points_per_second: 0,
        }
    }
}

// - - - - - - - - - - - - - - - - - - - - - - - - - - - - - - - - - - -  State

/// The status an Etherdream DAC reports.
#[derive(Clone, Copy, Debug)]
pub struct State {
    /// [Unknown]
    pub protocol: u8,
    /// The current light engine state of the DAC.
    pub light_engine_state: LightEngineState,
    /// The current playback state of the DAC.
    pub playback_state: PlaybackState,
    /// The current playback source of the DAC.
    pub source: Source,
    /// The current light engine flags. The DAC is ready if all flags are zero.
    /// Bits:
    ///  [0]: Emergency stop occurred due to E-Stop packet or invalid command.
    ///  [1]: Emergency stop occurred due to E-Stop input to projector.
    ///  [2]: Emergency stop input to projector is currently active.
    ///  [3]: Emergency stop occurred due to overtemperature condition.
    ///  [4]: Overtemperature condition is currently active.
    ///  [5]: Emergency stop occurred due to loss of Ethernet link.
    pub light_engine_flags: u16,
    /// The current playback flags.
    /// Bits:
    ///  [0]: Shutter state: 0 = closed, 1 = open.
    ///  [1]: Underflow. 1 if the last stream ended with underflow, rather than a
    ///       Stop command. Reset to zero by the Prepare command.
    ///  [2]: E-Stop. 1 if the last stream ended because the E-Stop state was
    ///       entered. Reset to zero by the Prepare command.
    pub playback_flags: u16,
    /// [Unknown]
    pub source_flags: u16,
    /// The current number of points that are buffered in the DAC.
    pub points_buffered: u16,
    /// The current number of points that the DAC is processing per second.
    pub points_per_second: u32,
    /// The total number of points that the DAC has processed.
    pub points_lifetime: u32,
}

/// The state the first twenty bytes of `bytes` report.
pub open spec fn state_of(bytes: Seq<u8>) -> State {
    State {
        protocol: bytes[0],
        light_engine_state: light_engine_state_of(bytes[1]),
        playback_state: playback_state_of(bytes[2]),
        source: source_of(bytes[3]),
        light_engine_flags: le16(bytes[4], bytes[5]) as u16,
        playback_flags: le16(bytes[6], bytes[7]) as u16,
        source_flags: le16(bytes[8], bytes[9]) as u16,
        points_buffered: le16(bytes[10], bytes[11]) as u16,
        points_per_second: le32(bytes[12], bytes[13], bytes[14], bytes[15]) as u32,
        points_lifetime: le32(bytes[16], bytes[17], bytes[18], bytes[19]) as u32,
    }
}

/// The bit of `flags` worth `weight` (a power of two) is set.
pub open spec fn flag_set(flags: u16, weight: int) -> bool {
    (flags as int / weight) % 2 == 1
}

impl State {
    /// No light engine flag is raised, the light engine is ready and playback
    /// is not idle.
    pub open spec fn ready(self) -> bool {
        &&& self.light_engine_flags == 0
        &&& self.light_engine_state == LightEngineState::Ready
        &&& self.playback_state != PlaybackState::Idle
    }

    /// The last stream ended because the E-Stop state was entered.
    pub open spec fn e_stop(self) -> bool {
        flag_set(self.playback_flags, 4)
    }

    /// The shutter is open.
    pub open spec fn shutter_open(self) -> bool {
        flag_set(self.playback_flags, 1)
    }

    /// The last stream ended with an underflow.
    pub open spec fn underflow(self) -> bool {
        flag_set(self.playback_flags, 2)
    }

    /// Ready and playing.
    pub open spec fn playing(self) -> bool {
        self.ready() && self.playback_state == PlaybackState::Playing
    }

    /// Decodes a slice of bytes into a `State` model.
    pub fn from_bytes(bytes: &[u8]) -> (s: Self)
        requires
            bytes@.len() >= STATE_BYTES_SIZE,
        ensures
            s == state_of(bytes@),
    {
        Self {
            protocol: bytes[0],
            light_engine_state: LightEngineState::from_byte(bytes[1]),
            playback_state: PlaybackState::from_byte(bytes[2]),
            source: Source::from_byte(bytes[3]),
            light_engine_flags: read_le16(bytes[4], bytes[5]),
            playback_flags: read_le16(bytes[6], bytes[7]),
            source_flags: read_le16(bytes[8], bytes[9]),
            points_buffered: read_le16(bytes[10], bytes[11]),
            points_per_second: read_le32(bytes[12], bytes[13], bytes[14], bytes[15]),
            points_lifetime: read_le32(bytes[16], bytes[17], bytes[18], bytes[19]),
        }
    }

    pub fn is_ready(&self) -> (r: bool)
        ensures
            r == self.ready(),
    {
        self.light_engine_flags == 0 && self.light_engine_state == LightEngineState::Ready
            && self.playback_state != PlaybackState::Idle
    }

    pub fn is_playing(&self) -> (r: bool)
        ensures
            r == self.playing(),
    {
        self.is_ready() && self.playback_state == PlaybackState::Playing
    }

    /// The last stream ended because the E-Stop state was entered
    /// (playback flag bit 2).
    pub fn is_e_stop(&self) -> (r: bool)
        ensures
            r == self.e_stop(),
    {
        let f = self.playback_flags;
        assert(((1 & (f >> 2u16)) == 1) == ((f / 4) % 2 == 1)) by (bit_vector);
        (1 & (f >> 2u16)) == 1
    }

    /// The shutter is open (playback flag bit 0).
    pub fn is_shutter_open(&self) -> (r: bool)
        ensures
            r == self.shutter_open(),
    {
        let f = self.playback_flags;
        assert(((1 & (f >> 0u16)) == 1) == ((f / 1) % 2 == 1)) by (bit_vector);
        (1 & (f >> 0u16)) == 1
    }

    /// The last stream ended with an underflow (playback flag bit 1).
    pub fn is_underflow(&self) -> (r: bool)
        ensures
            r == self.underflow(),
    {
        let f = self.playback_flags;
        assert(((1 & (f >> 1u16)) == 1) == ((f / 2) % 2 == 1)) by (bit_vector);
        (1 & (f >> 1u16)) == 1
    }
}

impl Default for State {
    fn default() -> (s: Self)
        ensures
            s == (State {
                protocol: 0,
                light_engine_state: LightEngineState::Ready,
                playback_state: PlaybackState::Idle,
                source: Source::Network,
                light_engine_flags: 0,
                playback_flags: 0,
                source_flags: 0,
                points_buffered: 0,
                points_per_second: 0,
                points_lifetime: 0,
            }),
    {
        State {
            protocol: 0,
            light_engine_state: LightEngineState::default(),
            playback_state: PlaybackState::default(),
            source: Source::default(),
            light_engine_flags: 0,
            playback_flags: 0,
            source_flags: 0,
            points_buffered: 0,
            points_per_second: 0,
            points_lifetime: 0,
        }
    }
}

// - - - - - - - - - - - - - - - - - - - - - - - - - - - - - - - - -  Encoders

/// The twenty bytes that report `s`, as a DAC sends them: a zero protocol
/// byte, the light engine, playback and source bytes, six zero bytes in
/// place of the three flag fields, then the buffered point count, the point
/// rate and the lifetime point count, little-endian.
pub open spec fn state_bytes(s: State) -> Seq<u8> {
    seq![
        0u8,
        light_engine_state_byte(s.light_engine_state),
        playback_state_byte(s.playback_state),
        source_byte(s.source),
        0u8,
        0u8,
        0u8,
        0u8,
        0u8,
        0u8,
    ] + le16_bytes(s.points_buffered) + le32_bytes(s.points_per_second) + le32_bytes(
        s.points_lifetime,
    )
}

/// The sixteen bytes that describe `i` in a broadcast.
pub open spec fn intrinsics_bytes(i: Intrinsics) -> Seq<u8> {
    i.mac_address@ + le16_bytes(i.version.hardware) + le16_bytes(i.version.software) + le16_bytes(
        i.buffer_capacity,
    ) + le32_bytes(i.max_points_per_second)
}

/// `new` is `old` with `bytes` written from `offset` on.
pub open spec fn written_at(old: Seq<u8>, new: Seq<u8>, offset: int, bytes: Seq<u8>) -> bool {
    &&& new.len() == old.len()
    &&& new.subrange(offset, offset + bytes.len()) == bytes
    &&& new.subrange(0, offset) == old.subrange(0, offset)
    &&& new.subrange(offset + bytes.len(), new.len() as int) == old.subrange(
        offset + bytes.len(),
        old.len() as int,
    )
}

/// Writes the two little-endian bytes of `v` at `at`.
fn write_le16(buf: &mut [u8], at: usize, v: u16)
    requires
        at + 2 <= old(buf)@.len(),
    ensures
        final(buf)@ == old(buf)@.update(at as int, le16_bytes(v)[0]).update(
            at + 1,
            le16_bytes(v)[1],
        ),
{
    buf[at] = (v % 256) as u8;
    buf[at + 1] = (v / 256) as u8;
}

/// Writes the four little-endian bytes of `v` at `at`.
fn write_le32(buf: &mut [u8], at: usize, v: u32)
    requires
        at + 4 <= old(buf)@.len(),
    ensures
        final(buf)@ == old(buf)@.update(at as int, le32_bytes(v)[0]).update(
            at + 1,
            le32_bytes(v)[1],
        ).update(at + 2, le32_bytes(v)[2]).update(at + 3, le32_bytes(v)[3]),
{
    buf[at] = (v % 256) as u8;
    buf[at + 1] = ((v / 256) % 256) as u8;
    buf[at + 2] = ((v / 65536) % 256) as u8;
    buf[at + 3] = (v / 16777216) as u8;
}

/// Writes the twenty state bytes of `s` into `buf` from `offset` on; the
/// other bytes of `buf` stay as they were.
pub fn write_state(buf: &mut [u8], offset: usize, s: &State)
    requires
        offset + STATE_BYTES_SIZE <= old(buf)@.len(),
    ensures
        written_at(old(buf)@, final(buf)@, offset as int, state_bytes(*s)),
{
    let ghost start = buf@;
    buf[offset] = 0;
    buf[offset + 1] = s.light_engine_state.to_byte();
    buf[offset + 2] = s.playback_state.to_byte();
    buf[offset + 3] = s.source.to_byte();
    let mut i: usize = 4;
    while i < 10
        invariant
            4 <= i <= 10,
            offset + STATE_BYTES_SIZE <= buf@.len(),
            buf@.len() == start.len(),
            forall|j: int| offset + 4 <= j < offset + i ==> buf@[j] == 0u8,
            buf@[offset as int] == 0u8,
            buf@[offset + 1] == light_engine_state_byte(s.light_engine_state),
            buf@[offset + 2] == playback_state_byte(s.playback_state),
            buf@[offset + 3] == source_byte(s.source),
            forall|j: int| 0 <= j < buf@.len() && (j < offset || j >= offset + 20) ==> buf@[j] == start[j],
        decreases 10 - i,
    {
        buf[offset + i] = 0;
        i = i + 1;
    }
    write_le16(buf, offset + 10, s.points_buffered);
    write_le32(buf, offset + 12, s.points_per_second);
    write_le32(buf, offset + 16, s.points_lifetime);
    assert(buf@.subrange(offset as int, offset + 20) =~= state_bytes(*s));
    assert(buf@.subrange(0, offset as int) =~= start.subrange(0, offset as int));
    assert(buf@.subrange(offset + 20, buf@.len() as int) =~= start.subrange(offset + 20, start.len() as int));
}

/// Writes the sixteen bytes that describe `i` into `buf` from `offset` on;
/// the other bytes of `buf` stay as they were.
pub fn write_intrinsics(buf: &mut [u8], offset: usize, i: &Intrinsics)
    requires
        offset + INTRINSIC_BYTES_SIZE <= old(buf)@.len(),
    ensures
        written_at(old(buf)@, final(buf)@, offset as int, intrinsics_bytes(*i)),
{
    let ghost start = buf@;
    let len = buf.len();
    let mac = i.mac_address.octets();
    let mut k: usize = 0;
    while k < 6
        invariant
            0 <= k <= 6,
            mac@ == i.mac_address@,
            mac@.len() == 6,
            buf@.len() == len,
            offset + INTRINSIC_BYTES_SIZE <= buf@.len(),
            buf@.len() == start.len(),
            forall|j: int| offset <= j < offset + k ==> buf@[j] == mac@[j - offset],
            forall|j: int| 0 <= j < buf@.len() && (j < offset || j >= offset + k) ==> buf@[j] == start[j],
        decreases 6 - k,
    {
        buf[offset + k] = mac[k];
        k = k + 1;
    }
    write_le16(buf, offset + 6, i.version.hardware);
    write_le16(buf, offset + 8, i.version.software);
    write_le16(buf, offset + 10, i.buffer_capacity);
    write_le32(buf, offset + 12, i.max_points_per_second);
    assert(buf@.subrange(offset as int, offset + 16) =~= intrinsics_bytes(*i));
    assert(buf@.subrange(0, offset as int) =~= start.subrange(0, offset as int));
    assert(buf@.subrange(offset + 16, buf@.len() as int) =~= start.subrange(offset + 16, start.len() as int));
}

// - - - - - - - - - - - - - - - - - - - - - - - - - - - - - - - - - - - Laws

/// Decoding a light engine state's byte gives the state back.
pub proof fn law_light_engine_state_byte_roundtrip(s: LightEngineState)
    ensures
        light_engine_state_of(light_engine_state_byte(s)) == s,
{
}

/// Decoding a playback state's byte gives the state back.
pub proof fn law_playback_state_byte_roundtrip(s: PlaybackState)
    ensures
        playback_state_of(playback_state_byte(s)) == s,
{
}

/// Decoding a source's byte gives the source back.
pub proof fn law_source_byte_roundtrip(s: Source)
    ensures
        source_of(source_byte(s)) == s,
{
}

/// Every command's byte decodes to that command, and every byte that
/// decodes to a command is that command's byte.
pub proof fn law_command_byte_roundtrip(cmd: Command, byte: u8)
    ensures
        command_from_byte(command_byte(cmd)) == Some(cmd),
        command_from_byte(byte) matches Some(c) ==> command_byte(c) == byte,
{
}

/// Every control signal's byte decodes to that signal, and every byte that
/// decodes to a signal is that signal's byte.
pub proof fn law_control_signal_byte_roundtrip(signal: ControlSignal, byte: u8)
    ensures
        control_signal_from_byte(control_signal_byte(signal)) == Some(signal),
        control_signal_from_byte(byte) matches Some(s) ==> control_signal_byte(s) == byte,
{
}

/// Decoding the broadcast bytes of intrinsic properties gives them back.
pub proof fn law_intrinsics_roundtrip(i: Intrinsics, decoded: Intrinsics)
    requires
        intrinsics_match(decoded, intrinsics_bytes(i)),
    ensures
        decoded == i,
{
    let b = intrinsics_bytes(i);
    assert(b.subrange(0, 6) =~= i.mac_address@);
    lemma_mac_address_view_eq(decoded.mac_address, i.mac_address);
    assert(b[6] == le16_bytes(i.version.hardware)[0]);
    assert(b[7] == le16_bytes(i.version.hardware)[1]);
    assert(b[8] == le16_bytes(i.version.software)[0]);
    assert(b[9] == le16_bytes(i.version.software)[1]);
    assert(b[10] == le16_bytes(i.buffer_capacity)[0]);
    assert(b[11] == le16_bytes(i.buffer_capacity)[1]);
    assert(b[12] == le32_bytes(i.max_points_per_second)[0]);
    assert(b[13] == le32_bytes(i.max_points_per_second)[1]);
    assert(b[14] == le32_bytes(i.max_points_per_second)[2]);
    assert(b[15] == le32_bytes(i.max_points_per_second)[3]);
}

/// Decoding the state bytes of a state gives it back, for a state whose
/// protocol byte and flags are zero; the encoding carries neither.
pub proof fn law_state_roundtrip(s: State)
    requires
        s.protocol == 0,
        s.light_engine_flags == 0,
        s.playback_flags == 0,
        s.source_flags == 0,
    ensures
        state_of(state_bytes(s)) == s,
{
    let b = state_bytes(s);
    assert(b[10] == le16_bytes(s.points_buffered)[0]);
    assert(b[11] == le16_bytes(s.points_buffered)[1]);
    assert(b[12] == le32_bytes(s.points_per_second)[0]);
    assert(b[13] == le32_bytes(s.points_per_second)[1]);
    assert(b[14] == le32_bytes(s.points_per_second)[2]);
    assert(b[15] == le32_bytes(s.points_per_second)[3]);
    assert(b[16] == le32_bytes(s.points_lifetime)[0]);
    assert(b[17] == le32_bytes(s.points_lifetime)[1]);
    assert(b[18] == le32_bytes(s.points_lifetime)[2]);
    assert(b[19] == le32_bytes(s.points_lifetime)[3]);
}

/// A playing device is a ready device.
pub proof fn law_playing_implies_ready(s: State)
    ensures
        s.playing() ==> s.ready(),
{
}


/// A device is ready exactly when no light engine flag is set, its light
/// engine is ready and its playback is not idle: any flag, an E-stop packet
/// among them, makes it not ready.
pub proof fn law_ready_needs_clear_flags(s: State)
    ensures
        s.ready() ==> s.light_engine_flags == 0,
        s.ready() ==> s.light_engine_state == LightEngineState::Ready,
        s.ready() ==> s.playback_state != PlaybackState::Idle,
        s.light_engine_flags == 0 && s.light_engine_state == LightEngineState::Ready
            && s.playback_state != PlaybackState::Idle ==> s.ready(),
{
}


/// The protocol's letters: commands `b` begin, `c` clear, `d` data, `0`
/// E-stop, `?` ping, `p` prepare, `q` queue rate, `s` stop; answers `a`
/// acknowledge, `!` refused for an E-stop, `F` refused as full, `I` refused as
/// invalid.
pub proof fn law_protocol_letters()
    ensures
        command_byte(Command::Begin) == 98,
        command_byte(Command::Clear) == 99,
        command_byte(Command::Data) == 100,
        command_byte(Command::Estop) == 48,
        command_byte(Command::Ping) == 63,
        command_byte(Command::Prepare) == 112,
        command_byte(Command::QueueRate) == 113,
        command_byte(Command::Stop) == 115,
        control_signal_byte(ControlSignal::Ack) == 97,
        control_signal_byte(ControlSignal::NakEstop) == 33,
        control_signal_byte(ControlSignal::NakFull) == 70,
        control_signal_byte(ControlSignal::NakInvalid) == 73,
{
}

/// The status numbers of the light engine (0 ready, 1 warming up, 2 cooling
/// down, 3 E-stop, and any larger number E-stop), of playback (0 idle, 1
/// prepared, 2 and more playing) and of the source (0 network, 1 ILDA, 2 and
/// more internal).
pub proof fn law_status_numbers(b: u8)
    ensures
        light_engine_state_of(0) == LightEngineState::Ready,
        light_engine_state_of(1) == LightEngineState::WarmUp,
        light_engine_state_of(2) == LightEngineState::CoolDown,
        b >= 3 ==> light_engine_state_of(b) == LightEngineState::Estop,
        playback_state_of(0) == PlaybackState::Idle,
        playback_state_of(1) == PlaybackState::Prepared,
        b >= 2 ==> playback_state_of(b) == PlaybackState::Playing,
        source_of(0) == Source::Network,
        source_of(1) == Source::Ilda,
        b >= 2 ==> source_of(b) == Source::Internal,
{
}

/// Where each field of a state lies in its twenty status bytes: the light
/// engine, playback and source numbers in bytes 1 to 3, then the light
/// engine, playback and source flags, the buffered points, the rate and the
/// lifetime count, each little-endian (low byte first).
pub proof fn law_state_layout(bytes: Seq<u8>)
    requires
        bytes.len() >= 20,
    ensures
        state_of(bytes).protocol == bytes[0],
        state_of(bytes).light_engine_state == light_engine_state_of(bytes[1]),
        state_of(bytes).playback_state == playback_state_of(bytes[2]),
        state_of(bytes).source == source_of(bytes[3]),
        state_of(bytes).light_engine_flags == bytes[4] + 256 * bytes[5],
        state_of(bytes).playback_flags == bytes[6] + 256 * bytes[7],
        state_of(bytes).source_flags == bytes[8] + 256 * bytes[9],
        state_of(bytes).points_buffered == bytes[10] + 256 * bytes[11],
        state_of(bytes).points_per_second == bytes[12] + 256 * bytes[13] + 65536 * bytes[14]
            + 16777216 * bytes[15],
        state_of(bytes).points_lifetime == bytes[16] + 256 * bytes[17] + 65536 * bytes[18]
            + 16777216 * bytes[19],
{
}


/// The playback flags: bit 0 tells that the shutter is open, bit 1 that the
/// last stream ended with an underflow, bit 2 that it ended in an E-stop.
pub proof fn law_playback_flag_bits(s: State)
    ensures
        s.shutter_open() == (s.playback_flags % 2 == 1),
        s.underflow() == ((s.playback_flags / 2) % 2 == 1),
        s.e_stop() == ((s.playback_flags / 4) % 2 == 1),
{
}

} // verus!
