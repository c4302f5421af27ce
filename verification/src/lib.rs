//! Etherdream: the wire protocol, buffers and decisions of an Etherdream
//! laser DAC client, with their contracts.
pub mod wire;
pub mod protocol;
pub mod circular_buffer;
pub mod point;
pub mod address;
pub mod address_map;
pub mod device_info;
pub mod discovery;
pub mod client;
pub mod generator;
pub mod constants;
pub mod device;
pub mod test_device;
pub mod simulator;
pub mod conn;
pub mod scene;
pub mod ui;
pub mod generators;
