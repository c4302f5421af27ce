//! The connection's view of the Etherdream protocol: commands without
//! arguments, control signals that carry their refusal reason, and the
//! lenient byte conversions a connection reads responses with.
use vstd::prelude::*;
use crate::constants::{
    ETHERDREAM_COMMAND_BEGIN, ETHERDREAM_COMMAND_CLEAR, ETHERDREAM_COMMAND_DATA,
    ETHERDREAM_COMMAND_ESTOP, ETHERDREAM_COMMAND_PING, ETHERDREAM_COMMAND_PREPARE,
    ETHERDREAM_COMMAND_QUEUE_RATE, ETHERDREAM_COMMAND_STOP, ETHERDREAM_CONTROL_ACK,
    ETHERDREAM_CONTROL_NAK_ESTOP, ETHERDREAM_CONTROL_NAK_FULL, ETHERDREAM_CONTROL_NAK_INVALID,
};

verus! {

// - - - - - - - - - - - - - - - - - - - - - - - - - - - - - - - - - - -  Enums

/// Commands recognized by an Etherdream DAC.
#[derive(Clone, Copy, Debug, PartialEq, Eq, Structural)]
pub enum Command {
    Begin,
    Clear,
    Data,
    Estop,
    Ping,
    Prepare,
    QueueRate,
    Stop,
}

#[derive(Clone, Copy, Debug, PartialEq, Eq, Structural)]
pub enum ControlSignal {
    Ack,
    Nak(NakReason),
}

#[derive(Clone, Copy, Debug, PartialEq, Eq, Structural)]
pub enum NakReason {
    /// The DAC command was refused as the DAC is in an E-stop.
    Estop,
    /// The DAC point data command was ignored because the point buffer is full.
    Full,
    /// The DAC command was malformed.
    Invalid,
}

#[derive(Clone, Copy, Debug, PartialEq, Eq, Structural)]
pub enum CommandError {
    /// The DAC responded with a `nak` and reason.
    Nak(NakReason),
    /// The connection is shut down. No further commands should be attempted.
    Shutdown,
    /// The command timed-out when waiting for a DAC response.
    Timeout,
}

// - - - - - - - - - - - - - - - - - - - - - - - - - - - - - - - - Conversions

/// The byte that sends `cmd`.
pub open spec fn command_byte(cmd: Command) -> u8 {
    match cmd {
        Command::Begin => ETHERDREAM_COMMAND_BEGIN,
        Command::Clear => ETHERDREAM_COMMAND_CLEAR,
        Command::Data => ETHERDREAM_COMMAND_DATA,
        Command::Estop => ETHERDREAM_COMMAND_ESTOP,
        Command::Ping => ETHERDREAM_COMMAND_PING,
        Command::Prepare => ETHERDREAM_COMMAND_PREPARE,
        Command::QueueRate => ETHERDREAM_COMMAND_QUEUE_RATE,
        Command::Stop => ETHERDREAM_COMMAND_STOP,
    }
}

/// The command a byte names; a byte that names none reads as an E-stop.
pub open spec fn command_of(byte: u8) -> Command {
    if byte == ETHERDREAM_COMMAND_BEGIN {
        Command::Begin
    } else if byte == ETHERDREAM_COMMAND_CLEAR {
        Command::Clear
    } else if byte == ETHERDREAM_COMMAND_DATA {
        Command::Data
    } else if byte == ETHERDREAM_COMMAND_PING {
        Command::Ping
    } else if byte == ETHERDREAM_COMMAND_PREPARE {
        Command::Prepare
    } else if byte == ETHERDREAM_COMMAND_QUEUE_RATE {
        Command::QueueRate
    } else if byte == ETHERDREAM_COMMAND_STOP {
        Command::Stop
    } else {
        Command::Estop
    }
}

/// The control signal a byte names; a byte that names none reads as a
/// refusal for an E-stop.
pub open spec fn control_signal_of(byte: u8) -> ControlSignal {
    if byte == ETHERDREAM_CONTROL_ACK {
        ControlSignal::Ack
    } else if byte == ETHERDREAM_CONTROL_NAK_FULL {
        ControlSignal::Nak(NakReason::Full)
    } else if byte == ETHERDREAM_CONTROL_NAK_INVALID {
        ControlSignal::Nak(NakReason::Invalid)
    } else {
        ControlSignal::Nak(NakReason::Estop)
    }
}

impl vstd::std_specs::convert::FromSpecImpl<u8> for ControlSignal {
    open spec fn obeys_from_spec() -> bool {
        true
    }

    open spec fn from_spec(byte: u8) -> ControlSignal {
        control_signal_of(byte)
    }
}

impl From<u8> for ControlSignal {
    fn from(byte: u8) -> (s: ControlSignal) {
        if byte == ETHERDREAM_CONTROL_ACK {
            ControlSignal::Ack
        } else if byte == ETHERDREAM_CONTROL_NAK_FULL {
            ControlSignal::Nak(NakReason::Full)
        } else if byte == ETHERDREAM_CONTROL_NAK_ESTOP {
            ControlSignal::Nak(NakReason::Estop)
        } else if byte == ETHERDREAM_CONTROL_NAK_INVALID {
            ControlSignal::Nak(NakReason::Invalid)
        } else {
            ControlSignal::Nak(NakReason::Estop)
        }
    }
}

impl vstd::std_specs::convert::FromSpecImpl<Command> for u8 {
    open spec fn obeys_from_spec() -> bool {
        true
    }

    open spec fn from_spec(cmd: Command) -> u8 {
        command_byte(cmd)
    }
}

impl From<Command> for u8 {
    fn from(cmd: Command) -> (b: u8) {
        match cmd {
            Command::Begin => ETHERDREAM_COMMAND_BEGIN,
            Command::Clear => ETHERDREAM_COMMAND_CLEAR,
            Command::Data => ETHERDREAM_COMMAND_DATA,
            Command::Estop => ETHERDREAM_COMMAND_ESTOP,
            Command::Ping => ETHERDREAM_COMMAND_PING,
            Command::Prepare => ETHERDREAM_COMMAND_PREPARE,
            Command::QueueRate => ETHERDREAM_COMMAND_QUEUE_RATE,
            Command::Stop => ETHERDREAM_COMMAND_STOP,
        }
    }
}

impl vstd::std_specs::convert::FromSpecImpl<u8> for Command {
    open spec fn obeys_from_spec() -> bool {
        true
    }

    open spec fn from_spec(byte: u8) -> Command {
        command_of(byte)
    }
}

impl From<u8> for Command {
    fn from(byte: u8) -> (c: Command) {
        if byte == ETHERDREAM_COMMAND_BEGIN {
            Command::Begin
        } else if byte == ETHERDREAM_COMMAND_CLEAR {
            Command::Clear
        } else if byte == ETHERDREAM_COMMAND_DATA {
            Command::Data
        } else if byte == ETHERDREAM_COMMAND_ESTOP {
            Command::Estop
        } else if byte == ETHERDREAM_COMMAND_PING {
            Command::Ping
        } else if byte == ETHERDREAM_COMMAND_PREPARE {
            Command::Prepare
        } else if byte == ETHERDREAM_COMMAND_QUEUE_RATE {
            Command::QueueRate
        } else if byte == ETHERDREAM_COMMAND_STOP {
            Command::Stop
        } else {
            Command::Estop
        }
    }
}

/// The result of a command, from the control signal of its response: the
/// device state on an acknowledgement, the refusal reason otherwise.
pub fn command_result<S>(signal: ControlSignal, state: S) -> (r: Result<S, CommandError>)
    ensures
        r == match signal {
            ControlSignal::Ack => Ok::<S, CommandError>(state),
            ControlSignal::Nak(reason) => Err(CommandError::Nak(reason)),
        },
{
    match signal {
        ControlSignal::Ack => Ok(state),
        ControlSignal::Nak(reason) => Err(CommandError::Nak(reason)),
    }
}

// - - - - - - - - - - - - - - - - - - - - - - - - - - - - - - - - - - -  Laws

/// Reading back the byte of any command gives that command.
pub proof fn law_command_byte_roundtrip(cmd: Command)
    ensures
        command_of(command_byte(cmd)) == cmd,
{
}

/// Every byte reads as some command, and the byte of that command is the
/// byte itself unless the byte names no command, in which case it reads as
/// an E-stop.
pub proof fn law_unknown_command_is_estop(byte: u8)
    ensures
        command_byte(command_of(byte)) == byte || command_of(byte) == Command::Estop,
{
}

/// A byte that is not a control signal reads as a refusal for an E-stop.
pub proof fn law_unknown_control_signal_is_estop(byte: u8)
    requires
        byte != ETHERDREAM_CONTROL_ACK,
        byte != ETHERDREAM_CONTROL_NAK_FULL,
        byte != ETHERDREAM_CONTROL_NAK_INVALID,
    ensures
        control_signal_of(byte) == ControlSignal::Nak(NakReason::Estop),
{
}

} // verus!
