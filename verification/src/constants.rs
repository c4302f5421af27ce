//! Constants that map to the Etherdream network protocol.
use vstd::prelude::*;

verus! {

// Etherdream command signals
pub const ETHERDREAM_COMMAND_BEGIN: u8 = 98;
pub const ETHERDREAM_COMMAND_CLEAR: u8 = 99;
pub const ETHERDREAM_COMMAND_DATA: u8 = 100;
pub const ETHERDREAM_COMMAND_ESTOP: u8 = 48;
pub const ETHERDREAM_COMMAND_PING: u8 = 63;
pub const ETHERDREAM_COMMAND_PREPARE: u8 = 112;
pub const ETHERDREAM_COMMAND_QUEUE_RATE: u8 = 113;
pub const ETHERDREAM_COMMAND_STOP: u8 = 115;

// Etherdream control signals
pub const ETHERDREAM_CONTROL_ACK: u8 = 97;
pub const ETHERDREAM_CONTROL_NAK_ESTOP: u8 = 33;
pub const ETHERDREAM_CONTROL_NAK_FULL: u8 = 70;
pub const ETHERDREAM_CONTROL_NAK_INVALID: u8 = 73;

// Etherdream network payload sizes
pub const ETHERDREAM_INTRINSIC_BYTES: usize = 16;
pub const ETHERDREAM_RESPONSE_BYTES: usize = 22;
pub const ETHERDREAM_STATE_BYTES: usize = 20;
pub const ETHERDREAM_POINT_DATA_BYTES: usize = 18;

// Etherdream broadcast
pub const ETHERDREAM_BROADCAST_PORT: u16 = 7654;
pub const ETHERDREAM_BROADCAST_BYTES: usize = 36;

// Etherdream client
pub const ETHERDREAM_CLIENT_PORT: u16 = 7765;

} // verus!
