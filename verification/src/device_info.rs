//! A remote device's address and intrinsic properties.
use vstd::prelude::*;
use crate::address::SocketAddress;
use crate::protocol::{Intrinsics, MacAddress, Version};

verus! {

/// A model that describes a remote device's address and intrinsic properties.
#[derive(Clone, Copy, Debug)]
pub struct DeviceInfo {
    address: SocketAddress,
    intrinsics: Intrinsics,
}

impl DeviceInfo {
    /// The socket address the device communicates on.
    pub closed spec fn addr(&self) -> SocketAddress {
        self.address
    }

    /// The device's intrinsic properties.
    pub closed spec fn props(&self) -> Intrinsics {
        self.intrinsics
    }

    /// Creates a new `DeviceInfo`.
    pub fn new(address: SocketAddress, intrinsics: Intrinsics) -> (d: Self)
        ensures
            d.addr() == address,
            d.props() == intrinsics,
    {
        Self { address, intrinsics }
    }

    /// Returns the socket address that the remote device can communicate on.
    pub fn address(&self) -> (a: &SocketAddress)
        ensures
            *a == self.addr(),
    {
        &self.address
    }

    /// Returns the intrinsic properties of the remote device.
    pub fn intrinsics(&self) -> (i: &Intrinsics)
        ensures
            *i == self.props(),
    {
        &self.intrinsics
    }

    /// Returns the maximum point buffer capacity of the remote device.
    pub fn buffer_capacity(&self) -> (n: usize)
        ensures
            n == self.props().buffer_capacity,
    {
        self.intrinsics.buffer_capacity as usize
    }

    /// Returns the MAC address for the remote device.
    pub fn mac_address(&self) -> (m: &MacAddress)
        ensures
            *m == self.props().mac_address,
    {
        &self.intrinsics.mac_address
    }

    /// Returns the maximum number of points that the remote device can process
    /// per second.
    pub fn max_points_per_second(&self) -> (n: usize)
        ensures
            n == self.props().max_points_per_second,
    {
        self.intrinsics.max_points_per_second as usize
    }

    /// Returns the hardware and software version installed on the remote device.
    pub fn version(&self) -> (v: &Version)
        ensures
            *v == self.props().version,
    {
        &self.intrinsics.version
    }
}

} // verus!
