//! An Etherdream device as a broadcast announces it: its address, intrinsic
//! properties and state.
use vstd::prelude::*;
use crate::address::SocketAddress;
use crate::address_map::AddressMap;
use crate::constants::{ETHERDREAM_BROADCAST_BYTES, ETHERDREAM_CLIENT_PORT, ETHERDREAM_INTRINSIC_BYTES};
use crate::protocol::{intrinsics_match, state_of};
pub use crate::protocol::{
    Intrinsics, LightEngineState, MacAddress, PlaybackState, Source, State, Version,
};

verus! {

/// Container that encodes information about an Etherdream device and its
/// run-time state.
#[derive(Clone, Copy, Debug)]
pub struct Device {
    /// The remote socket address that the Etherdream device is listening on.
    address: SocketAddress,
    /// The intrinsic Etherdream device properties.
    intrinsics: Intrinsics,
    /// The Etherdream device engine state.
    state: State,
}

impl Device {
    /// The device's address.
    pub closed spec fn addr(&self) -> SocketAddress {
        self.address
    }

    /// The device's intrinsic properties.
    pub closed spec fn props(&self) -> Intrinsics {
        self.intrinsics
    }

    /// The state the device reported when it was discovered.
    pub closed spec fn status(&self) -> State {
        self.state
    }

    /// Creates a new `Device` at `address` whose intrinsics and state are
    /// decoded from the broadcast `bytes`.
    pub fn from_bytes(address: SocketAddress, bytes: &[u8]) -> (d: Self)
        requires
            bytes@.len() >= ETHERDREAM_BROADCAST_BYTES,
        ensures
            d.addr() == address,
            intrinsics_match(d.props(), bytes@),
            d.status() == state_of(bytes@.subrange(16, bytes@.len() as int)),
    {
        let (intrinsic_bytes, state_bytes) = bytes.split_at(ETHERDREAM_INTRINSIC_BYTES);
        let intrinsics = Intrinsics::from_bytes(intrinsic_bytes);
        let state = State::from_bytes(state_bytes);
        proof {
            assert(intrinsic_bytes@.subrange(0, 6) =~= bytes@.subrange(0, 6));
        }
        Self { address, intrinsics, state }
    }

    /// Creates a new `Device` from constituent `intrinsics` and `state` parts.
    pub fn from_parts(address: SocketAddress, intrinsics: Intrinsics, state: State) -> (d: Self)
        ensures
            d.addr() == address,
            d.props() == intrinsics,
            d.status() == state,
    {
        Self { address, intrinsics, state }
    }

    /// Returns the socket address that the device is communicating on.
    pub fn address(&self) -> (a: SocketAddress)
        ensures
            a == self.addr(),
    {
        self.address
    }

    /// Returns the maximum number of points the device can buffer.
    pub fn buffer_capacity(&self) -> (n: u16)
        ensures
            n == self.props().buffer_capacity,
    {
        self.intrinsics.buffer_capacity
    }

    /// Returns the MAC address for this device.
    pub fn mac_address(&self) -> (m: MacAddress)
        ensures
            m == self.props().mac_address,
    {
        self.intrinsics.mac_address
    }

    /// Returns the maximum number of points this device can process per second.
    pub fn max_points_per_second(&self) -> (n: u32)
        ensures
            n == self.props().max_points_per_second,
    {
        self.intrinsics.max_points_per_second
    }

    /// Returns the state of the device when the device was discovered.
    pub fn state(&self) -> (s: State)
        ensures
            s == self.status(),
    {
        self.state
    }

    /// Returns the hardware and software version installed on the device.
    pub fn version(&self) -> (v: Version)
        ensures
            v == self.props().version,
    {
        self.intrinsics.version
    }
}

// - - - - - - - - - - - - - - - - - - - - - - - - - - - - - - - - Device map

/// Records the broadcast `bytes` that arrived from `source` in `devices`:
/// the device they describe, at the source's IP and the client port,
/// replaces whatever was held for the source. Returns the device when the
/// source was not known before, so that each device is published once.
pub fn record_broadcast(devices: &mut AddressMap<Device>, source: SocketAddress, bytes: &[u8]) -> (r: Option<Device>)
    requires
        old(devices).wf(),
        bytes@.len() >= ETHERDREAM_BROADCAST_BYTES,
    ensures
        final(devices).wf(),
        final(devices)@.dom().contains(source),
        final(devices)@ == old(devices)@.insert(source, final(devices)@[source]),
        final(devices)@[source].addr() == source.at_port(ETHERDREAM_CLIENT_PORT),
        intrinsics_match(final(devices)@[source].props(), bytes@),
        final(devices)@[source].status() == state_of(bytes@.subrange(16, bytes@.len() as int)),
        r == (if old(devices)@.dom().contains(source) {
            None
        } else {
            Some(final(devices)@[source])
        }),
{
    let device = Device::from_bytes(source.with_port(ETHERDREAM_CLIENT_PORT), bytes);
    match devices.insert(source, device) {
        Some(_) => None,
        None => Some(device),
    }
}

} // verus!
