//! A model of an Etherdream device for testing, and the encoders that turn
//! its properties and state into the bytes a real device sends.
use vstd::prelude::*;
use crate::constants::ETHERDREAM_BROADCAST_BYTES;
use crate::protocol::{
    self, intrinsics_bytes, lemma_mac_address_len, state_bytes, write_intrinsics, write_state, written_at, Intrinsics,
    LightEngineState, MacAddress, PlaybackState, Source, Version,
};

verus! {

#[derive(Clone, Copy)]
pub struct TestDevice {
    pub intrinsics: Intrinsics,
    pub state: protocol::State,
}

impl TestDevice {
    /// Creates a new test device with a capacity of 64 points.
    pub fn new() -> (d: Self)
        ensures
            d.intrinsics.buffer_capacity == 64,
            d.intrinsics.mac_address@ == seq![0u8, 1u8, 2u8, 3u8, 4u8, 5u8],
            d.intrinsics.max_points_per_second == 128,
            d.intrinsics.version == (Version { hardware: 0, software: 1 }),
            d.state.light_engine_state == LightEngineState::Ready,
            d.state.playback_state == PlaybackState::Prepared,
            d.state.source == Source::Network,
            d.state.protocol == 0 && d.state.light_engine_flags == 0 && d.state.playback_flags
                == 0 && d.state.source_flags == 0,
            d.state.points_buffered == 0 && d.state.points_lifetime == 0
                && d.state.points_per_second == 0,
    {
        Self::with_capacity(64)
    }

    /// Creates a new test device with a custom `capacity`: MAC address
    /// 00:01:02:03:04:05, 128 points per second, version 0.1, ready and
    /// prepared, with nothing buffered.
    pub fn with_capacity(capacity: u16) -> (d: Self)
        ensures
            d.intrinsics.buffer_capacity == capacity,
            d.intrinsics.mac_address@ == seq![0u8, 1u8, 2u8, 3u8, 4u8, 5u8],
            d.intrinsics.max_points_per_second == 128,
            d.intrinsics.version == (Version { hardware: 0, software: 1 }),
            d.state.light_engine_state == LightEngineState::Ready,
            d.state.playback_state == PlaybackState::Prepared,
            d.state.source == Source::Network,
            d.state.protocol == 0 && d.state.light_engine_flags == 0 && d.state.playback_flags
                == 0 && d.state.source_flags == 0,
            d.state.points_buffered == 0 && d.state.points_lifetime == 0
                && d.state.points_per_second == 0,
    {
        let mac = MacAddress::new([0, 1, 2, 3, 4, 5]);
        proof {
            assert(mac@ =~= seq![0u8, 1u8, 2u8, 3u8, 4u8, 5u8]);
        }
        Self {
            intrinsics: Intrinsics {
                buffer_capacity: capacity,
                mac_address: mac,
                max_points_per_second: 128,
                version: Version::new(0, 1),
            },
            state: protocol::State {
                protocol: 0,
                light_engine_flags: 0,
                light_engine_state: LightEngineState::Ready,
                playback_flags: 0,
                playback_state: PlaybackState::Prepared,
                points_buffered: 0,
                points_lifetime: 0,
                points_per_second: 0,
                source: Source::Network,
                source_flags: 0,
            },
        }
    }
}

/// Copies intrinsic and state attributes into an Etherdream-compliant
/// broadcast byte array: the intrinsic bytes, then the state bytes.
pub fn copy_into_etherdream_broadcast_bytes(
    buf: &mut [u8],
    intrinsics: &Intrinsics,
    state: &protocol::State,
)
    requires
        old(buf)@.len() >= ETHERDREAM_BROADCAST_BYTES,
    ensures
        written_at(old(buf)@, final(buf)@, 0, intrinsics_bytes(*intrinsics) + state_bytes(*state)),
{
    let ghost start = buf@;
    write_intrinsics(buf, 0, intrinsics);
    let ghost mid = buf@;
    write_state(buf, 16, state);
    proof {
        let all = intrinsics_bytes(*intrinsics) + state_bytes(*state);
        lemma_mac_address_len(intrinsics.mac_address);
        assert(intrinsics_bytes(*intrinsics).len() == 16);
        assert(buf@.subrange(0, 16) =~= mid.subrange(0, 16));
        assert(buf@.subrange(0, 36) =~= buf@.subrange(0, 16) + buf@.subrange(16, 36));
        assert(buf@.subrange(0, 36) =~= all);
        assert(buf@.subrange(0, 0) =~= start.subrange(0, 0));
        assert(buf@.subrange(36, buf@.len() as int) =~= mid.subrange(36, mid.len() as int));
        assert(mid.subrange(36, mid.len() as int) =~= mid.subrange(16, mid.len() as int).subrange(20, mid.len() - 16));
        assert(start.subrange(16, start.len() as int).subrange(20, start.len() - 16) =~= start.subrange(36, start.len() as int));
    }
}

/// Copies device state attributes into an Etherdream-compliant state byte
/// array: its first twenty bytes become the state bytes.
pub fn copy_into_etherdream_state_bytes(buf: &mut [u8], state: &protocol::State)
    requires
        old(buf)@.len() >= protocol::STATE_BYTES_SIZE,
    ensures
        written_at(old(buf)@, final(buf)@, 0, state_bytes(*state)),
{
    write_state(buf, 0, state);
}

} // verus!
