//! Discovery: decoding Etherdream broadcasts and keeping a registry of the
//! devices they announce.
use vstd::prelude::*;
use crate::address::SocketAddress;
use crate::address_map::AddressMap;
use crate::device_info::DeviceInfo;
use crate::protocol::{
    self, Intrinsics, BROADCAST_BYTES_SIZE, CLIENT_PORT, INTRINSIC_BYTES_SIZE, intrinsics_match,
    intrinsics_bytes, lemma_mac_address_len, law_intrinsics_roundtrip, law_state_roundtrip,
    state_bytes, state_of,
};

verus! {

// - - - - - - - - - - - - - - - - - - - - - - - - - - - - -  Broadcast Decoder

/// Decodes the broadcast at the front of `bytes`: the intrinsic properties
/// from its first sixteen bytes and the state from the twenty after them.
/// Returns `None` while fewer bytes than a whole broadcast are available.
pub fn decode_broadcast(bytes: &[u8]) -> (r: Option<(Intrinsics, protocol::State)>)
    ensures
        bytes@.len() < BROADCAST_BYTES_SIZE ==> r is None,
        bytes@.len() >= BROADCAST_BYTES_SIZE ==> (r matches Some((i, s)) && intrinsics_match(
            i,
            bytes@,
        ) && s == state_of(bytes@.subrange(16, 36))),
{
    if bytes.len() < BROADCAST_BYTES_SIZE {
        None
    } else {
        let intrinsics = Intrinsics::from_bytes(&bytes[0..INTRINSIC_BYTES_SIZE]);
        let state = protocol::State::from_bytes(&bytes[INTRINSIC_BYTES_SIZE..BROADCAST_BYTES_SIZE]);
        proof {
            assert(intrinsics_match(intrinsics, bytes@)) by {
                assert(bytes@.subrange(0, 16).subrange(0, 6) =~= bytes@.subrange(0, 6));
            }
        }
        Some((intrinsics, state))
    }
}

// - - - - - - - - - - - - - - - - - - - - - - - - - - - - - - - - -  Broadcast

/// What the registry knows of one device: its address and properties, the
/// state it first reported, and when it was first and last heard.
#[derive(Clone, Copy, Debug)]
pub struct Broadcast<S> {
    pub device_info: DeviceInfo,
    pub inserted_at: S,
    pub state: protocol::State,
    pub updated_at: S,
}

impl<S> Broadcast<S> {
    pub fn device_info(&self) -> (d: &DeviceInfo)
        ensures
            *d == self.device_info,
    {
        &self.device_info
    }

    pub fn inserted_at(&self) -> (t: &S)
        ensures
            *t == self.inserted_at,
    {
        &self.inserted_at
    }

    pub fn state(&self) -> (s: &protocol::State)
        ensures
            *s == self.state,
    {
        &self.state
    }

    pub fn updated_at(&self) -> (t: &S)
        ensures
            *t == self.updated_at,
    {
        &self.updated_at
    }
}

// - - - - - - - - - - - - - - - - - - - - - - - - - - - - - - - - -  Registry

/// The devices heard so far, keyed by the address their broadcast came from.
pub struct Registry<S> {
    devices: AddressMap<Broadcast<S>>,
}

impl<S> View for Registry<S> {
    type V = Map<SocketAddress, Broadcast<S>>;

    closed spec fn view(&self) -> Map<SocketAddress, Broadcast<S>> {
        self.devices@
    }
}

impl<S: Copy> Registry<S> {
    /// The registry's invariant: one entry per address.
    pub closed spec fn wf(&self) -> bool {
        self.devices.wf()
    }

    /// Creates an empty registry.
    pub fn new() -> (r: Self)
        ensures
            r.wf(),
            r@ == Map::<SocketAddress, Broadcast<S>>::empty(),
    {
        Registry { devices: AddressMap::new() }
    }

    /// Returns the number of devices in the registry.
    pub fn len(&self) -> (n: usize)
        requires
            self.wf(),
        ensures
            n == self@.len(),
    {
        self.devices.len()
    }

    /// Returns what the registry holds for `address`.
    pub fn get(&self, address: &SocketAddress) -> (r: Option<&Broadcast<S>>)
        requires
            self.wf(),
        ensures
            r is None <==> !self@.dom().contains(*address),
            r matches Some(b) ==> *b == self@[*address],
    {
        self.devices.get(address)
    }

    /// Records a broadcast that arrived from `source` at time `now`.
    ///
    /// A device heard for the first time is entered with the client address
    /// (the source's IP at the client port), its intrinsics and state, and is
    /// returned so that it can be published. A device already known only has
    /// its `updated_at` set to `now`, and nothing is returned: each device is
    /// published exactly once.
    pub fn observe(
        &mut self,
        source: SocketAddress,
        intrinsics: Intrinsics,
        state: protocol::State,
        now: S,
    ) -> (r: Option<DeviceInfo>)
        requires
            old(self).wf(),
        ensures
            final(self).wf(),
            old(self)@.dom().contains(source) ==> r is None && final(self)@ == old(self)@.insert(
                source,
                Broadcast { updated_at: now, ..old(self)@[source] },
            ),
            !old(self)@.dom().contains(source) ==> (r matches Some(d) && d.addr() == source.at_port(
                CLIENT_PORT,
            ) && d.props() == intrinsics && final(self)@ == old(self)@.insert(
                source,
                Broadcast { device_info: d, inserted_at: now, state: state, updated_at: now },
            )),
    {
        match self.devices.get(&source) {
            Some(known) => {
                let updated = Broadcast { updated_at: now, ..*known };
                self.devices.insert(source, updated);
                None
            },
            None => {
                let device_info = DeviceInfo::new(source.with_port(CLIENT_PORT), intrinsics);
                let broadcast = Broadcast { device_info, inserted_at: now, state, updated_at: now };
                self.devices.insert(source, broadcast);
                Some(device_info)
            },
        }
    }
}

/// The sources that `Registry::observe` publishes, in order, when broadcasts
/// arrive from `sources` one after another at a registry that already knows
/// the addresses in `known`.
pub open spec fn published(known: Set<SocketAddress>, sources: Seq<SocketAddress>) -> Seq<SocketAddress>
    decreases sources.len(),
{
    if sources.len() == 0 {
        Seq::empty()
    } else if known.contains(sources[0]) {
        published(known, sources.drop_first())
    } else {
        seq![sources[0]] + published(known.insert(sources[0]), sources.drop_first())
    }
}

/// Every device is published exactly once: whatever order and however often
/// broadcasts arrive, the published addresses have no repeats, and they are
/// exactly the sources that the registry did not know before.
pub proof fn law_each_device_published_once(known: Set<SocketAddress>, sources: Seq<SocketAddress>)
    ensures
        published(known, sources).no_duplicates(),
        published(known, sources).to_set() == sources.to_set().difference(known),
    decreases sources.len(),
{
    if sources.len() == 0 {
        assert(sources.to_set().difference(known) =~= Set::empty());
        assert(published(known, sources).to_set() =~= Set::empty());
    } else {
        let k = sources[0];
        let rest = sources.drop_first();
        assert(sources =~= seq![k] + rest);
        assert(sources.to_set() =~= rest.to_set().insert(k)) by {
            assert forall|x: SocketAddress| sources.to_set().contains(x) implies rest.to_set().insert(k).contains(x) by {
                let i = choose|i: int| 0 <= i < sources.len() && sources[i] == x;
                if i > 0 {
                    assert(rest[i - 1] == x);
                }
            }
            assert forall|x: SocketAddress| rest.to_set().insert(k).contains(x) implies sources.to_set().contains(x) by {
                if x != k {
                    let i = choose|i: int| 0 <= i < rest.len() && rest[i] == x;
                    assert(sources[i + 1] == x);
                } else {
                    assert(sources[0] == x);
                }
            }
        }
        if known.contains(k) {
            law_each_device_published_once(known, rest);
            assert(sources.to_set().difference(known) =~= rest.to_set().difference(known));
        } else {
            let k2 = known.insert(k);
            law_each_device_published_once(k2, rest);
            let tail = published(k2, rest);
            let out = seq![k] + tail;
            assert(out == published(known, sources));
            assert(!tail.contains(k)) by {
                if tail.contains(k) {
                    assert(tail.to_set().contains(k));
                }
            }
            assert(out.no_duplicates()) by {
                assert forall|i: int, j: int| 0 <= i < out.len() && 0 <= j < out.len() && i != j implies out[i] != out[j] by {
                    if i == 0 && j > 0 {
                        assert(out[j] == tail[j - 1]);
                    } else if j == 0 && i > 0 {
                        assert(out[i] == tail[i - 1]);
                    } else if i > 0 && j > 0 {
                        assert(out[i] == tail[i - 1]);
                        assert(out[j] == tail[j - 1]);
                    }
                }
            }
            assert(out.to_set() =~= tail.to_set().insert(k)) by {
                assert forall|x: SocketAddress| out.to_set().contains(x) implies tail.to_set().insert(k).contains(x) by {
                    let i = choose|i: int| 0 <= i < out.len() && out[i] == x;
                    if i > 0 {
                        assert(tail[i - 1] == x);
                    }
                }
                assert forall|x: SocketAddress| tail.to_set().insert(k).contains(x) implies out.to_set().contains(x) by {
                    if x != k {
                        let i = choose|i: int| 0 <= i < tail.len() && tail[i] == x;
                        assert(out[i + 1] == x);
                    } else {
                        assert(out[0] == x);
                    }
                }
            }
            assert(out.to_set() =~= sources.to_set().difference(known));
        }
    }
}

/// A device's broadcast decodes to the intrinsic properties and the state it
/// was made of, for a state whose protocol byte and flags are zero; the
/// encoding carries neither.
pub proof fn law_broadcast_roundtrip(i: Intrinsics, s: protocol::State, decoded: Intrinsics)
    requires
        s.protocol == 0,
        s.light_engine_flags == 0,
        s.playback_flags == 0,
        s.source_flags == 0,
        intrinsics_match(decoded, intrinsics_bytes(i) + state_bytes(s)),
    ensures
        decoded == i,
        state_of((intrinsics_bytes(i) + state_bytes(s)).subrange(16, 36)) == s,
{
    let ib = intrinsics_bytes(i);
    let all = ib + state_bytes(s);
    lemma_mac_address_len(i.mac_address);
    assert(ib.len() == 16);
    assert(all.subrange(0, 6) =~= ib.subrange(0, 6));
    assert forall|k: int| 0 <= k < 16 implies all[k] == ib[k] by {}
    assert(intrinsics_match(decoded, ib));
    law_intrinsics_roundtrip(i, decoded);
    assert(all.subrange(16, 36) =~= state_bytes(s));
    law_state_roundtrip(s);
}

} // verus!
