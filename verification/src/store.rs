//! The client-side model: the canonical lists of networks, saved networks and
//! Bluetooth devices, the global flags, and how each event from the core
//! changes them.
//!
//! Identity keys (network path, device address) are stable across update
//! cycles, and entries are updated by key rather than replaced, so the local
//! operation flags survive daemon refresh cycles.

use vstd::prelude::*;

use crate::device::{BtDevice, BtDeviceView};
use crate::network::{WifiNetwork, WifiNetworkView};
use crate::text::str_eq;
use crate::types::{BackendCommand, BackendEvent, BtDeviceData, BtPairingKind, IwdDeviceInfo, KnownNetworkData, WifiNetworkData};

verus! {

/// Entry `j` is the first entry of `nets` keyed by `path`.
pub open spec fn wifi_is_first_match(nets: Seq<WifiNetwork>, path: Seq<char>, j: int) -> bool {
    &&& 0 <= j < nets.len()
    &&& nets[j]@.path == path
    &&& forall|k: int| 0 <= k < j ==> #[trigger] nets[k]@.path != path
}

/// Some entry of `nets` is keyed by `path`.
pub open spec fn wifi_has_path(nets: Seq<WifiNetwork>, path: Seq<char>) -> bool {
    exists|j: int| #![auto] 0 <= j < nets.len() && nets[j]@.path == path
}

/// Some entry of `nets` carries this (name, security type) pair.
pub open spec fn visible_pair_exists(nets: Seq<WifiNetwork>, name: Seq<char>, ty: Seq<char>) -> bool {
    exists|i: int|
        #![auto]
        0 <= i < nets.len() && nets[i]@.name == name && nets[i]@.network_type == ty
}

/// The viewed entry carries exactly the daemon-reported fields of `d` and is
/// not an offline placeholder.
pub open spec fn net_matches_data(v: WifiNetworkView, d: WifiNetworkData) -> bool {
    &&& v.path == d.path@
    &&& v.name == d.name@
    &&& v.network_type == d.network_type@
    &&& v.signal_strength == d.signal_strength
    &&& v.connected == d.connected
    &&& v.known == d.known
    &&& !v.offline
}

/// The viewed entry was synthesized from the saved-network record `k`.
pub open spec fn saved_entry_matches(v: WifiNetworkView, k: KnownNetworkData) -> bool {
    &&& v.path == k.path@
    &&& v.name == k.name@
    &&& v.network_type == k.network_type@
    &&& v.known
    &&& v.offline
    &&& !v.connected
    &&& v.no_pending_op()
}

/// Every saved-list entry was synthesized from some record of `known`.
pub open spec fn saved_from_known(saved: Seq<WifiNetwork>, known: Seq<KnownNetworkData>) -> bool {
    forall|i: int|
        #![trigger saved[i]]
        0 <= i < saved.len() ==> exists|j: int|
            #![auto]
            0 <= j < known.len() && saved_entry_matches(saved[i]@, known[j])
}

/// Some saved-list entry was synthesized from `k`.
pub open spec fn saved_list_has(saved: Seq<WifiNetwork>, k: KnownNetworkData) -> bool {
    exists|i: int| #![auto] 0 <= i < saved.len() && saved_entry_matches(saved[i]@, k)
}

/// The view of the offline entry synthesized from the saved record `k`.
pub open spec fn offline_view(k: KnownNetworkData) -> WifiNetworkView {
    WifiNetworkView {
        path: k.path@,
        name: k.name@,
        network_type: k.network_type@,
        signal_strength: 0,
        connected: false,
        known: true,
        offline: true,
        connecting: false,
        disconnecting: false,
        forgetting: false,
    }
}

/// `saved` is, entry for entry and in order, exactly the offline entries for
/// the records of `known` whose (name, type) pair no entry of `nets` carries:
/// one entry per unsuppressed record, none else, in the input's order.
pub open spec fn is_saved_offline_list(
    saved: Seq<WifiNetwork>,
    known: Seq<KnownNetworkData>,
    nets: Seq<WifiNetwork>,
) -> bool
    decreases known.len(),
{
    if known.len() == 0 {
        saved.len() == 0
    } else if visible_pair_exists(nets, known.last().name@, known.last().network_type@) {
        is_saved_offline_list(saved, known.drop_last(), nets)
    } else {
        &&& saved.len() > 0
        &&& saved.last()@ == offline_view(known.last())
        &&& is_saved_offline_list(saved.drop_last(), known.drop_last(), nets)
    }
}

/// Find the first network keyed by `path`.
pub fn find_wifi_index(nets: &Vec<WifiNetwork>, path: &str) -> (r: Option<usize>)
    ensures
        r matches Some(i) ==> wifi_is_first_match(nets@, path@, i as int),
        r is None ==> !wifi_has_path(nets@, path@),
{
    let mut i: usize = 0;
    while i < nets.len()
        invariant
            i <= nets@.len(),
            forall|k: int| 0 <= k < i ==> #[trigger] nets@[k]@.path != path@,
        decreases nets@.len() - i,
    {
        if str_eq(nets[i].path.as_str(), path) {
            return Some(i);
        }
        i = i + 1;
    }
    None
}

/// A copy of `n` with the mutable fields replaced and the identity and
/// daemon-reported descriptive fields kept.
fn wifi_with_flags(
    n: &WifiNetwork,
    connected: bool,
    known: bool,
    connecting: bool,
    disconnecting: bool,
    forgetting: bool,
) -> (r: WifiNetwork)
    ensures
        r@ == (WifiNetworkView { connected, known, connecting, disconnecting, forgetting, ..n@ }),
{
    WifiNetwork {
        path: n.path.clone(),
        name: n.name.clone(),
        network_type: n.network_type.clone(),
        signal_strength: n.signal_strength,
        connected,
        known,
        offline: n.offline,
        connecting,
        disconnecting,
        forgetting,
    }
}

/// Entry `j` is the first entry of `devs` keyed by `address`.
pub open spec fn bt_is_first_match(devs: Seq<BtDevice>, address: Seq<char>, j: int) -> bool {
    &&& 0 <= j < devs.len()
    &&& devs[j]@.address == address
    &&& forall|k: int| 0 <= k < j ==> #[trigger] devs[k]@.address != address
}

/// Some entry of `devs` is keyed by `address`.
pub open spec fn bt_has_address(devs: Seq<BtDevice>, address: Seq<char>) -> bool {
    exists|j: int| #![auto] 0 <= j < devs.len() && devs[j]@.address == address
}

/// The viewed entry carries exactly the daemon-reported fields of `d`; the
/// shown name falls back to the alias when the daemon name is empty, and the
/// path doubles the address, which is the stable key.
pub open spec fn dev_matches_data(v: BtDeviceView, d: BtDeviceData) -> bool {
    &&& v.path == d.address@
    &&& v.address == d.address@
    &&& v.name == (if d.name@.len() == 0 {
        d.alias@
    } else {
        d.name@
    })
    &&& v.alias == d.alias@
    &&& v.icon == d.icon@
    &&& v.paired == d.paired
    &&& v.trusted == d.trusted
    &&& v.connected == d.connected
    &&& v.battery_percentage == d.battery_percentage
    &&& v.rssi == d.rssi
}

/// The subsequence of devices the daemon reports as paired, in order.
pub open spec fn paired_only(devs: Seq<BtDevice>) -> Seq<BtDevice>
    decreases devs.len(),
{
    if devs.len() == 0 {
        Seq::empty()
    } else if devs.last()@.paired {
        paired_only(devs.drop_last()).push(devs.last())
    } else {
        paired_only(devs.drop_last())
    }
}

/// What `paired_only` keeps: exactly the paired entries, each taken from the
/// input, and every paired input entry is still listed under its address.
pub proof fn lemma_paired_only_props(devs: Seq<BtDevice>)
    ensures
        forall|i: int|
            0 <= i < paired_only(devs).len() ==> (#[trigger] paired_only(devs)[i])@.paired
                && devs.contains(paired_only(devs)[i]),
        forall|j: int|
            0 <= j < devs.len() && (#[trigger] devs[j])@.paired ==> paired_only(devs).contains(
                devs[j],
            ),
    decreases devs.len(),
{
    if devs.len() > 0 {
        lemma_paired_only_props(devs.drop_last());
        let rest = paired_only(devs.drop_last());
        assert forall|i: int|
            0 <= i < paired_only(devs).len() implies (#[trigger] paired_only(devs)[i])@.paired
            && devs.contains(paired_only(devs)[i]) by {
            if i < rest.len() {
                assert(paired_only(devs)[i] == rest[i]);
                let w = choose|w: int| 0 <= w < devs.drop_last().len() && devs.drop_last()[w]
                    == rest[i];
                assert(devs[w] == rest[i]);
            } else {
                assert(paired_only(devs)[i] == devs.last());
                assert(devs[devs.len() - 1] == devs.last());
            }
        }
        assert forall|j: int|
            0 <= j < devs.len() && (#[trigger] devs[j])@.paired implies paired_only(devs).contains(
            devs[j],
        ) by {
            if j < devs.len() - 1 {
                assert(devs.drop_last()[j] == devs[j]);
                let w = choose|w: int| 0 <= w < rest.len() && rest[w] == devs[j];
                assert(paired_only(devs)[w] == devs[j]);
            } else {
                assert(paired_only(devs).last() == devs.last());
            }
        }
    }
}

/// Find the first device keyed by `address`.
pub fn find_bt_device_index(devs: &Vec<BtDevice>, address: &str) -> (r: Option<usize>)
    ensures
        r matches Some(i) ==> bt_is_first_match(devs@, address@, i as int),
        r is None ==> !bt_has_address(devs@, address@),
{
    let mut i: usize = 0;
    while i < devs.len()
        invariant
            i <= devs@.len(),
            forall|k: int| 0 <= k < i ==> #[trigger] devs@[k]@.address != address@,
        decreases devs@.len() - i,
    {
        if str_eq(devs[i].address.as_str(), address) {
            return Some(i);
        }
        i = i + 1;
    }
    None
}

/// A copy of `d` with the mutable daemon and operation flags replaced and
/// the identity and descriptive fields kept.
fn bt_with_flags(
    d: &BtDevice,
    connected: bool,
    connecting: bool,
    disconnecting: bool,
    removing: bool,
) -> (r: BtDevice)
    ensures
        r@ == (BtDeviceView { connected, connecting, disconnecting, removing, ..d@ }),
{
    BtDevice {
        path: d.path.clone(),
        address: d.address.clone(),
        name: d.name.clone(),
        alias: d.alias.clone(),
        icon: d.icon.clone(),
        paired: d.paired,
        trusted: d.trusted,
        connected,
        connecting,
        disconnecting,
        removing,
        battery_percentage: d.battery_percentage,
        rssi: d.rssi,
    }
}

/// A device entry built from a daemon read, with the given operation flags.
fn bt_from_data(
    data: &BtDeviceData,
    connecting: bool,
    disconnecting: bool,
    removing: bool,
) -> (r: BtDevice)
    ensures
        dev_matches_data(r@, *data),
        r@.connecting == connecting,
        r@.disconnecting == disconnecting,
        r@.removing == removing,
{
    let name = if data.name.as_str().is_empty() {
        data.alias.clone()
    } else {
        data.name.clone()
    };
    BtDevice {
        path: data.address.clone(),
        address: data.address.clone(),
        name,
        alias: data.alias.clone(),
        icon: data.icon.clone(),
        paired: data.paired,
        trusted: data.trusted,
        connected: data.connected,
        connecting,
        disconnecting,
        removing,
        battery_percentage: data.battery_percentage,
        rssi: data.rssi,
    }
}

/// The whole client-side model.
pub struct WlcontrolManager {
    /// Networks visible in the current scan snapshot.
    pub wifi_networks: Vec<WifiNetwork>,
    /// Saved networks that the current scan does not see.
    pub saved_networks: Vec<WifiNetwork>,
    /// Saved-network records as last reported, kept for cross-filtering.
    pub cached_known: Vec<KnownNetworkData>,
    /// All Bluetooth devices shown to the user.
    pub bt_devices: Vec<BtDevice>,
    /// Wireless adapter inventory and the active adapter.
    pub wifi_devices: Vec<IwdDeviceInfo>,
    pub wifi_active_path: Option<String>,
    pub wifi_available: bool,
    pub bt_available: bool,
    pub wifi_powered: bool,
    pub wifi_scanning: bool,
    pub bt_powered: bool,
    pub bt_discovering: bool,
    pub bt_discoverable: bool,
}

impl WlcontrolManager {
    /// An empty model: nothing known yet, everything off.
    pub fn new() -> (m: WlcontrolManager)
        ensures
            m.wifi_networks@.len() == 0,
            m.saved_networks@.len() == 0,
            m.cached_known@.len() == 0,
            m.bt_devices@.len() == 0,
            m.wifi_devices@.len() == 0,
            m.wifi_active_path is None,
            !m.wifi_available,
            !m.bt_available,
            !m.wifi_powered,
            !m.wifi_scanning,
            !m.bt_powered,
            !m.bt_discovering,
            !m.bt_discoverable,
    {
        WlcontrolManager {
            wifi_networks: Vec::new(),
            saved_networks: Vec::new(),
            cached_known: Vec::new(),
            bt_devices: Vec::new(),
            wifi_devices: Vec::new(),
            wifi_active_path: None,
            wifi_available: false,
            bt_available: false,
            wifi_powered: false,
            wifi_scanning: false,
            bt_powered: false,
            bt_discovering: false,
            bt_discoverable: false,
        }
    }

    /// Whether some visible network carries this (name, type) pair.
    pub fn has_visible_pair(&self, name: &str, ty: &str) -> (r: bool)
        ensures
            r == visible_pair_exists(self.wifi_networks@, name@, ty@),
    {
        let mut i: usize = 0;
        while i < self.wifi_networks.len()
            invariant
                i <= self.wifi_networks@.len(),
                forall|k: int|
                    0 <= k < i ==> !(#[trigger] self.wifi_networks@[k]@.name == name@
                        && self.wifi_networks@[k]@.network_type == ty@),
            decreases self.wifi_networks@.len() - i,
        {
            let n = &self.wifi_networks[i];
            if str_eq(n.name.as_str(), name) && str_eq(n.network_type.as_str(), ty) {
                return true;
            }
            i = i + 1;
        }
        false
    }

    /// Replace the visible-network list with a new scan snapshot.  Entries
    /// are reused by their stable key: an entry whose path was already listed
    /// keeps its local operation flags, a new entry starts with none.
    pub fn update_wifi_networks(&mut self, data: &Vec<WifiNetworkData>)
        ensures
            final(self).wifi_networks@.len() == data@.len(),
            forall|i: int|
                0 <= i < data@.len() ==> net_matches_data(
                    #[trigger] final(self).wifi_networks@[i]@,
                    data@[i],
                ),
            forall|i: int, j: int|
                0 <= i < data@.len() && #[trigger] wifi_is_first_match(
                    old(self).wifi_networks@,
                    data@[i].path@,
                    j,
                ) ==> {
                    &&& final(self).wifi_networks@[i]@.connecting == old(self).wifi_networks@[j]@.connecting
                    &&& final(self).wifi_networks@[i]@.disconnecting == old(self).wifi_networks@[j]@.disconnecting
                    &&& final(self).wifi_networks@[i]@.forgetting == old(self).wifi_networks@[j]@.forgetting
                },
            forall|i: int|
                0 <= i < data@.len() && !wifi_has_path(old(self).wifi_networks@, data@[i].path@)
                    ==> (#[trigger] final(self).wifi_networks@[i]@).no_pending_op(),
            *final(self) == (WlcontrolManager {
                wifi_networks: final(self).wifi_networks,
                ..*old(self)
            }),
    {
        let mut out: Vec<WifiNetwork> = Vec::new();
        let mut i: usize = 0;
        while i < data.len()
            invariant
                i <= data@.len(),
                out@.len() == i,
                self == old(self),
                forall|k: int|
                    0 <= k < i ==> net_matches_data(#[trigger] out@[k]@, data@[k]),
                forall|k: int, j: int|
                    0 <= k < i && #[trigger] wifi_is_first_match(self.wifi_networks@, data@[k].path@, j) ==> {
                        &&& out@[k]@.connecting == self.wifi_networks@[j]@.connecting
                        &&& out@[k]@.disconnecting == self.wifi_networks@[j]@.disconnecting
                        &&& out@[k]@.forgetting == self.wifi_networks@[j]@.forgetting
                    },
                forall|k: int|
                    0 <= k < i && !wifi_has_path(self.wifi_networks@, data@[k].path@) ==> (
                    #[trigger] out@[k]@).no_pending_op(),
            decreases data@.len() - i,
        {
            let d = &data[i];
            let entry = match find_wifi_index(&self.wifi_networks, d.path.as_str()) {
                Some(j) => {
                    let prev = &self.wifi_networks[j];
                    WifiNetwork {
                        path: d.path.clone(),
                        name: d.name.clone(),
                        network_type: d.network_type.clone(),
                        signal_strength: d.signal_strength,
                        connected: d.connected,
                        known: d.known,
                        offline: false,
                        connecting: prev.connecting,
                        disconnecting: prev.disconnecting,
                        forgetting: prev.forgetting,
                    }
                },
                None => {
                    WifiNetwork {
                        path: d.path.clone(),
                        name: d.name.clone(),
                        network_type: d.network_type.clone(),
                        signal_strength: d.signal_strength,
                        connected: d.connected,
                        known: d.known,
                        offline: false,
                        connecting: false,
                        disconnecting: false,
                        forgetting: false,
                    }
                },
            };
            out.push(entry);
            i = i + 1;
        }
        self.wifi_networks = out;
    }

    /// Rebuild the saved-network list: one offline entry for each saved
    /// record whose (name, type) pair no visible network carries.  A saved
    /// record that a visible entry duplicates is suppressed, so the two lists
    /// never show the same network twice.
    pub fn rebuild_saved_networks(&mut self)
        ensures
            is_saved_offline_list(
                final(self).saved_networks@,
                final(self).cached_known@,
                final(self).wifi_networks@,
            ),
            forall|i: int|
                0 <= i < final(self).saved_networks@.len() ==> !visible_pair_exists(
                    final(self).wifi_networks@,
                    (#[trigger] final(self).saved_networks@[i]@).name,
                    final(self).saved_networks@[i]@.network_type,
                ),
            saved_from_known(final(self).saved_networks@, final(self).cached_known@),
            forall|j: int|
                0 <= j < final(self).cached_known@.len() && !visible_pair_exists(
                    final(self).wifi_networks@,
                    (#[trigger] final(self).cached_known@[j]).name@,
                    final(self).cached_known@[j].network_type@,
                ) ==> saved_list_has(final(self).saved_networks@, final(self).cached_known@[j]),
            *final(self) == (WlcontrolManager {
                saved_networks: final(self).saved_networks,
                ..*old(self)
            }),
    {
        let mut saved: Vec<WifiNetwork> = Vec::new();
        let mut i: usize = 0;
        proof {
            assert(self.cached_known@.take(0) =~= Seq::<KnownNetworkData>::empty());
        }
        while i < self.cached_known.len()
            invariant
                i <= self.cached_known@.len(),
                self == old(self),
                is_saved_offline_list(saved@, self.cached_known@.take(i as int), self.wifi_networks@),
                forall|k: int|
                    0 <= k < saved@.len() ==> !visible_pair_exists(
                        self.wifi_networks@,
                        (#[trigger] saved@[k]@).name,
                        saved@[k]@.network_type,
                    ),
                saved_from_known(saved@, self.cached_known@),
                forall|j: int|
                    0 <= j < i && !visible_pair_exists(
                        self.wifi_networks@,
                        (#[trigger] self.cached_known@[j]).name@,
                        self.cached_known@[j].network_type@,
                    ) ==> saved_list_has(saved@, self.cached_known@[j]),
            decreases self.cached_known@.len() - i,
        {
            let k = &self.cached_known[i];
            proof {
                assert(self.cached_known@.take(i + 1).drop_last() =~= self.cached_known@.take(
                    i as int,
                ));
                assert(self.cached_known@.take(i + 1).last() == self.cached_known@[i as int]);
            }
            if !self.has_visible_pair(k.name.as_str(), k.network_type.as_str()) {
                let entry = crate::network::WifiNetwork::new_saved_offline(
                    k.path.as_str(),
                    k.name.as_str(),
                    k.network_type.as_str(),
                );
                let ghost pre = saved@;
                saved.push(entry);
                proof {
                    assert(saved@ == pre.push(entry));
                    assert(saved@[pre.len() as int]@ == entry@);
                    assert(saved@.last()@ == offline_view(self.cached_known@[i as int]));
                    assert(saved@.drop_last() =~= pre);
                    assert(is_saved_offline_list(
                        saved@,
                        self.cached_known@.take(i + 1),
                        self.wifi_networks@,
                    ));
                    assert(saved_entry_matches(
                        saved@[pre.len() as int]@,
                        self.cached_known@[i as int],
                    ));
                    assert forall|k2: int|
                        #![trigger saved@[k2]]
                        0 <= k2 < saved@.len() implies exists|j: int|
                        #![auto]
                        0 <= j < self.cached_known@.len() && saved_entry_matches(
                            saved@[k2]@,
                            self.cached_known@[j],
                        ) by {
                        if k2 < pre.len() {
                            assert(saved@[k2] == pre[k2]);
                            let j = choose|j: int|
                                #![auto]
                                0 <= j < self.cached_known@.len() && saved_entry_matches(
                                    pre[k2]@,
                                    self.cached_known@[j],
                                );
                            assert(saved_entry_matches(saved@[k2]@, self.cached_known@[j]));
                        } else {
                            assert(saved_entry_matches(saved@[k2]@, self.cached_known@[i as int]));
                        }
                    }
                    assert forall|j: int|
                        0 <= j < i && saved_list_has(pre, self.cached_known@[j]) implies
                        saved_list_has(saved@, self.cached_known@[j]) by {
                        let w = choose|w: int|
                            0 <= w < pre.len() && saved_entry_matches(
                                pre[w]@,
                                self.cached_known@[j],
                            );
                        assert(saved@[w] == pre[w]);
                        assert(saved_entry_matches(saved@[w]@, self.cached_known@[j]));
                    }
                }
            }
            i = i + 1;
        }
        proof {
            assert(self.cached_known@.take(self.cached_known@.len() as int) =~= self.cached_known@);
        }
        self.saved_networks = saved;
    }

    /// Mark exactly the network at `connected_path` as connected and every
    /// other network as not connected; nothing else changes.
    pub fn update_wifi_connected(&mut self, connected_path: &Option<String>)
        ensures
            final(self).wifi_networks@.len() == old(self).wifi_networks@.len(),
            forall|i: int|
                0 <= i < old(self).wifi_networks@.len() ==> #[trigger] final(self).wifi_networks@[i]@ == (WifiNetworkView {
                    connected: (connected_path matches Some(p) && old(self).wifi_networks@[i]@.path == p@),
                    ..old(self).wifi_networks@[i]@
                }),
            *final(self) == (WlcontrolManager {
                wifi_networks: final(self).wifi_networks,
                ..*old(self)
            }),
    {
        let mut i: usize = 0;
        while i < self.wifi_networks.len()
            invariant
                i <= self.wifi_networks@.len(),
                self.wifi_networks@.len() == old(self).wifi_networks@.len(),
                forall|k: int|
                    i <= k < self.wifi_networks@.len() ==> #[trigger] self.wifi_networks@[k]
                        == old(self).wifi_networks@[k],
                forall|k: int|
                    0 <= k < i ==> #[trigger] self.wifi_networks@[k]@ == (WifiNetworkView {
                        connected: (connected_path matches Some(p) && old(self).wifi_networks@[k]@.path == p@),
                        ..old(self).wifi_networks@[k]@
                    }),
                *self == (WlcontrolManager { wifi_networks: self.wifi_networks, ..*old(self) }),
            decreases self.wifi_networks@.len() - i,
        {
            let is_connected = match connected_path {
                Some(p) => str_eq(self.wifi_networks[i].path.as_str(), p.as_str()),
                None => false,
            };
            let n = &self.wifi_networks[i];
            let repl = wifi_with_flags(
                n,
                is_connected,
                n.known,
                n.connecting,
                n.disconnecting,
                n.forgetting,
            );
            self.wifi_networks.set(i, repl);
            i = i + 1;
        }
    }

    /// Mark the first network keyed by `path` as saved; nothing else changes.
    pub fn set_wifi_network_known(&mut self, path: &str)
        ensures
            final(self).wifi_networks@.len() == old(self).wifi_networks@.len(),
            forall|j: int|
                #[trigger] wifi_is_first_match(old(self).wifi_networks@, path@, j) ==> {
                    &&& final(self).wifi_networks@[j]@ == (WifiNetworkView {
                        known: true,
                        ..old(self).wifi_networks@[j]@
                    })
                    &&& forall|k: int|
                        0 <= k < old(self).wifi_networks@.len() && k != j ==> #[trigger] final(self).wifi_networks@[k] == old(self).wifi_networks@[k]
                },
            !wifi_has_path(old(self).wifi_networks@, path@) ==> final(self).wifi_networks@ == old(self).wifi_networks@,
            *final(self) == (WlcontrolManager {
                wifi_networks: final(self).wifi_networks,
                ..*old(self)
            }),
    {
        if let Some(i) = find_wifi_index(&self.wifi_networks, path) {
            let n = &self.wifi_networks[i];
            let repl = wifi_with_flags(
                n,
                n.connected,
                true,
                n.connecting,
                n.disconnecting,
                n.forgetting,
            );
            self.wifi_networks.set(i, repl);
        }
    }

    /// Mark exactly the network at `path` as connecting and every other
    /// network as not connecting; nothing else changes.
    pub fn set_wifi_connecting(&mut self, path: &str)
        ensures
            final(self).wifi_networks@.len() == old(self).wifi_networks@.len(),
            forall|i: int|
                0 <= i < old(self).wifi_networks@.len() ==> #[trigger] final(self).wifi_networks@[i]@ == (WifiNetworkView {
                    connecting: old(self).wifi_networks@[i]@.path == path@,
                    ..old(self).wifi_networks@[i]@
                }),
            *final(self) == (WlcontrolManager {
                wifi_networks: final(self).wifi_networks,
                ..*old(self)
            }),
    {
        let mut i: usize = 0;
        while i < self.wifi_networks.len()
            invariant
                i <= self.wifi_networks@.len(),
                self.wifi_networks@.len() == old(self).wifi_networks@.len(),
                forall|k: int|
                    i <= k < self.wifi_networks@.len() ==> #[trigger] self.wifi_networks@[k]
                        == old(self).wifi_networks@[k],
                forall|k: int|
                    0 <= k < i ==> #[trigger] self.wifi_networks@[k]@ == (WifiNetworkView {
                        connecting: old(self).wifi_networks@[k]@.path == path@,
                        ..old(self).wifi_networks@[k]@
                    }),
                *self == (WlcontrolManager { wifi_networks: self.wifi_networks, ..*old(self) }),
            decreases self.wifi_networks@.len() - i,
        {
            let is_target = str_eq(self.wifi_networks[i].path.as_str(), path);
            let n = &self.wifi_networks[i];
            let repl = wifi_with_flags(
                n,
                n.connected,
                n.known,
                is_target,
                n.disconnecting,
                n.forgetting,
            );
            self.wifi_networks.set(i, repl);
            i = i + 1;
        }
    }

    /// Clear every local operation flag on every network: the conservative
    /// reset used on connection events and errors.
    pub fn clear_wifi_operations(&mut self)
        ensures
            final(self).wifi_networks@.len() == old(self).wifi_networks@.len(),
            forall|i: int|
                0 <= i < old(self).wifi_networks@.len() ==> #[trigger] final(self).wifi_networks@[i]@ == (WifiNetworkView {
                    connecting: false,
                    disconnecting: false,
                    forgetting: false,
                    ..old(self).wifi_networks@[i]@
                }),
            *final(self) == (WlcontrolManager {
                wifi_networks: final(self).wifi_networks,
                ..*old(self)
            }),
    {
        let mut i: usize = 0;
        while i < self.wifi_networks.len()
            invariant
                i <= self.wifi_networks@.len(),
                self.wifi_networks@.len() == old(self).wifi_networks@.len(),
                forall|k: int|
                    i <= k < self.wifi_networks@.len() ==> #[trigger] self.wifi_networks@[k]
                        == old(self).wifi_networks@[k],
                forall|k: int|
                    0 <= k < i ==> #[trigger] self.wifi_networks@[k]@ == (WifiNetworkView {
                        connecting: false,
                        disconnecting: false,
                        forgetting: false,
                        ..old(self).wifi_networks@[k]@
                    }),
                *self == (WlcontrolManager { wifi_networks: self.wifi_networks, ..*old(self) }),
            decreases self.wifi_networks@.len() - i,
        {
            let n = &self.wifi_networks[i];
            let repl = wifi_with_flags(n, n.connected, n.known, false, false, false);
            self.wifi_networks.set(i, repl);
            i = i + 1;
        }
    }

    /// Mark the first network keyed by `path` as forgetting; nothing else
    /// changes.
    pub fn set_wifi_forgetting(&mut self, path: &str)
        ensures
            final(self).wifi_networks@.len() == old(self).wifi_networks@.len(),
            forall|j: int|
                #[trigger] wifi_is_first_match(old(self).wifi_networks@, path@, j) ==> {
                    &&& final(self).wifi_networks@[j]@ == (WifiNetworkView {
                        forgetting: true,
                        ..old(self).wifi_networks@[j]@
                    })
                    &&& forall|k: int|
                        0 <= k < old(self).wifi_networks@.len() && k != j ==> #[trigger] final(self).wifi_networks@[k] == old(self).wifi_networks@[k]
                },
            !wifi_has_path(old(self).wifi_networks@, path@) ==> final(self).wifi_networks@ == old(self).wifi_networks@,
            *final(self) == (WlcontrolManager {
                wifi_networks: final(self).wifi_networks,
                ..*old(self)
            }),
    {
        if let Some(i) = find_wifi_index(&self.wifi_networks, path) {
            let n = &self.wifi_networks[i];
            let repl = wifi_with_flags(
                n,
                n.connected,
                n.known,
                n.connecting,
                n.disconnecting,
                true,
            );
            self.wifi_networks.set(i, repl);
        }
    }

    /// Mark the first saved-list network keyed by `path` as forgetting;
    /// nothing else changes.
    pub fn set_saved_forgetting(&mut self, path: &str)
        ensures
            final(self).saved_networks@.len() == old(self).saved_networks@.len(),
            forall|j: int|
                #[trigger] wifi_is_first_match(old(self).saved_networks@, path@, j) ==> {
                    &&& final(self).saved_networks@[j]@ == (WifiNetworkView {
                        forgetting: true,
                        ..old(self).saved_networks@[j]@
                    })
                    &&& forall|k: int|
                        0 <= k < old(self).saved_networks@.len() && k != j ==> #[trigger] final(self).saved_networks@[k] == old(self).saved_networks@[k]
                },
            !wifi_has_path(old(self).saved_networks@, path@) ==> final(self).saved_networks@ == old(self).saved_networks@,
            *final(self) == (WlcontrolManager {
                saved_networks: final(self).saved_networks,
                ..*old(self)
            }),
    {
        if let Some(i) = find_wifi_index(&self.saved_networks, path) {
            let n = &self.saved_networks[i];
            let repl = wifi_with_flags(
                n,
                n.connected,
                n.known,
                n.connecting,
                n.disconnecting,
                true,
            );
            self.saved_networks.set(i, repl);
        }
    }

    /// Mark the first connected network as disconnecting, for instant
    /// feedback on a disconnect request; nothing else changes.
    pub fn set_wifi_disconnecting_on_connected(&mut self)
        ensures
            final(self).wifi_networks@.len() == old(self).wifi_networks@.len(),
            forall|j: int|
                0 <= j < old(self).wifi_networks@.len() && (#[trigger] old(self).wifi_networks@[j]@).connected && (forall|k: int|
                    0 <= k < j ==> !(#[trigger] old(self).wifi_networks@[k]@).connected) ==> {
                    &&& final(self).wifi_networks@[j]@ == (WifiNetworkView {
                        disconnecting: true,
                        ..old(self).wifi_networks@[j]@
                    })
                    &&& forall|k: int|
                        0 <= k < old(self).wifi_networks@.len() && k != j ==> #[trigger] final(self).wifi_networks@[k] == old(self).wifi_networks@[k]
                },
            (forall|j: int|
                0 <= j < old(self).wifi_networks@.len() ==> !(#[trigger] old(self).wifi_networks@[j]@).connected) ==> final(self).wifi_networks@ == old(self).wifi_networks@,
            *final(self) == (WlcontrolManager {
                wifi_networks: final(self).wifi_networks,
                ..*old(self)
            }),
    {
        let mut i: usize = 0;
        while i < self.wifi_networks.len()
            invariant
                i <= self.wifi_networks@.len(),
                *self == *old(self),
                forall|k: int|
                    0 <= k < i ==> !(#[trigger] self.wifi_networks@[k]@).connected,
            decreases self.wifi_networks@.len() - i,
        {
            if self.wifi_networks[i].connected {
                let n = &self.wifi_networks[i];
                let repl = wifi_with_flags(
                    n,
                    n.connected,
                    n.known,
                    n.connecting,
                    true,
                    n.forgetting,
                );
                self.wifi_networks.set(i, repl);
                return ;
            }
            i = i + 1;
        }
    }

    /// Refresh the first device keyed by the data's address from a daemon
    /// read, keeping its local operation flags; nothing else changes.
    pub fn update_bt_device(&mut self, data: &BtDeviceData)
        ensures
            final(self).bt_devices@.len() == old(self).bt_devices@.len(),
            forall|j: int|
                #[trigger] bt_is_first_match(old(self).bt_devices@, data.address@, j) ==> {
                    &&& dev_matches_data(final(self).bt_devices@[j]@, *data)
                    &&& final(self).bt_devices@[j]@.connecting == old(self).bt_devices@[j]@.connecting
                    &&& final(self).bt_devices@[j]@.disconnecting == old(self).bt_devices@[j]@.disconnecting
                    &&& final(self).bt_devices@[j]@.removing == old(self).bt_devices@[j]@.removing
                    &&& forall|k: int|
                        0 <= k < old(self).bt_devices@.len() && k != j ==> #[trigger] final(self).bt_devices@[k] == old(self).bt_devices@[k]
                },
            !bt_has_address(old(self).bt_devices@, data.address@) ==> final(self).bt_devices@
                == old(self).bt_devices@,
            *final(self) == (WlcontrolManager { bt_devices: final(self).bt_devices, ..*old(self) }),
    {
        if let Some(i) = find_bt_device_index(&self.bt_devices, data.address.as_str()) {
            let d = &self.bt_devices[i];
            let repl = bt_from_data(data, d.connecting, d.disconnecting, d.removing);
            self.bt_devices.set(i, repl);
        }
    }

    /// Add a device from a daemon read, or refresh it when its address is
    /// already listed.  A new entry starts with no operation flags.
    pub fn add_bt_device(&mut self, data: &BtDeviceData) -> (existed: bool)
        ensures
            existed == bt_has_address(old(self).bt_devices@, data.address@),
            !existed ==> {
                &&& final(self).bt_devices@.len() == old(self).bt_devices@.len() + 1
                &&& forall|k: int|
                    0 <= k < old(self).bt_devices@.len() ==> #[trigger] final(self).bt_devices@[k]
                        == old(self).bt_devices@[k]
                &&& dev_matches_data(final(self).bt_devices@.last()@, *data)
                &&& final(self).bt_devices@.last()@.no_pending_op()
            },
            existed ==> {
                &&& final(self).bt_devices@.len() == old(self).bt_devices@.len()
                &&& forall|j: int|
                    #[trigger] bt_is_first_match(old(self).bt_devices@, data.address@, j) ==> {
                        &&& dev_matches_data(final(self).bt_devices@[j]@, *data)
                        &&& final(self).bt_devices@[j]@.connecting == old(self).bt_devices@[j]@.connecting
                        &&& final(self).bt_devices@[j]@.disconnecting == old(self).bt_devices@[j]@.disconnecting
                        &&& final(self).bt_devices@[j]@.removing == old(self).bt_devices@[j]@.removing
                        &&& forall|k: int|
                            0 <= k < old(self).bt_devices@.len() && k != j ==> #[trigger] final(self).bt_devices@[k] == old(self).bt_devices@[k]
                    }
            },
            *final(self) == (WlcontrolManager { bt_devices: final(self).bt_devices, ..*old(self) }),
    {
        match find_bt_device_index(&self.bt_devices, data.address.as_str()) {
            Some(i) => {
                let d = &self.bt_devices[i];
                let repl = bt_from_data(data, d.connecting, d.disconnecting, d.removing);
                self.bt_devices.set(i, repl);
                true
            },
            None => {
                let entry = bt_from_data(data, false, false, false);
                self.bt_devices.push(entry);
                false
            },
        }
    }

    /// Drop the first device keyed by `address` from the list; nothing else
    /// changes.
    pub fn remove_bt_device(&mut self, address: &str)
        ensures
            forall|j: int|
                #[trigger] bt_is_first_match(old(self).bt_devices@, address@, j) ==> final(self).bt_devices@ == old(self).bt_devices@.remove(j),
            !bt_has_address(old(self).bt_devices@, address@) ==> final(self).bt_devices@ == old(self).bt_devices@,
            *final(self) == (WlcontrolManager { bt_devices: final(self).bt_devices, ..*old(self) }),
    {
        if let Some(i) = find_bt_device_index(&self.bt_devices, address) {
            self.bt_devices.remove(i);
        }
    }

    /// Mark exactly the device at `address` as connecting and every other
    /// device as not connecting; nothing else changes.
    pub fn set_bt_connecting(&mut self, address: &str)
        ensures
            final(self).bt_devices@.len() == old(self).bt_devices@.len(),
            forall|i: int|
                0 <= i < old(self).bt_devices@.len() ==> #[trigger] final(self).bt_devices@[i]@
                    == (BtDeviceView {
                    connecting: old(self).bt_devices@[i]@.address == address@,
                    ..old(self).bt_devices@[i]@
                }),
            *final(self) == (WlcontrolManager { bt_devices: final(self).bt_devices, ..*old(self) }),
    {
        let mut i: usize = 0;
        while i < self.bt_devices.len()
            invariant
                i <= self.bt_devices@.len(),
                self.bt_devices@.len() == old(self).bt_devices@.len(),
                forall|k: int|
                    i <= k < self.bt_devices@.len() ==> #[trigger] self.bt_devices@[k] == old(self).bt_devices@[k],
                forall|k: int|
                    0 <= k < i ==> #[trigger] self.bt_devices@[k]@ == (BtDeviceView {
                        connecting: old(self).bt_devices@[k]@.address == address@,
                        ..old(self).bt_devices@[k]@
                    }),
                *self == (WlcontrolManager { bt_devices: self.bt_devices, ..*old(self) }),
            decreases self.bt_devices@.len() - i,
        {
            let is_target = str_eq(self.bt_devices[i].address.as_str(), address);
            let d = &self.bt_devices[i];
            let repl = bt_with_flags(d, d.connected, is_target, d.disconnecting, d.removing);
            self.bt_devices.set(i, repl);
            i = i + 1;
        }
    }

    /// Clear every local operation flag on every device: the conservative
    /// reset used on errors and state changes.
    pub fn clear_bt_operations(&mut self)
        ensures
            final(self).bt_devices@.len() == old(self).bt_devices@.len(),
            forall|i: int|
                0 <= i < old(self).bt_devices@.len() ==> #[trigger] final(self).bt_devices@[i]@
                    == (BtDeviceView {
                    connecting: false,
                    disconnecting: false,
                    removing: false,
                    ..old(self).bt_devices@[i]@
                }),
            *final(self) == (WlcontrolManager { bt_devices: final(self).bt_devices, ..*old(self) }),
    {
        let mut i: usize = 0;
        while i < self.bt_devices.len()
            invariant
                i <= self.bt_devices@.len(),
                self.bt_devices@.len() == old(self).bt_devices@.len(),
                forall|k: int|
                    i <= k < self.bt_devices@.len() ==> #[trigger] self.bt_devices@[k] == old(self).bt_devices@[k],
                forall|k: int|
                    0 <= k < i ==> #[trigger] self.bt_devices@[k]@ == (BtDeviceView {
                        connecting: false,
                        disconnecting: false,
                        removing: false,
                        ..old(self).bt_devices@[k]@
                    }),
                *self == (WlcontrolManager { bt_devices: self.bt_devices, ..*old(self) }),
            decreases self.bt_devices@.len() - i,
        {
            let d = &self.bt_devices[i];
            let repl = bt_with_flags(d, d.connected, false, false, false);
            self.bt_devices.set(i, repl);
            i = i + 1;
        }
    }

    /// Mark every device as disconnected: the adapter was powered off.
    pub fn reset_bt_connected_state(&mut self)
        ensures
            final(self).bt_devices@.len() == old(self).bt_devices@.len(),
            forall|i: int|
                0 <= i < old(self).bt_devices@.len() ==> #[trigger] final(self).bt_devices@[i]@
                    == (BtDeviceView { connected: false, ..old(self).bt_devices@[i]@ }),
            *final(self) == (WlcontrolManager { bt_devices: final(self).bt_devices, ..*old(self) }),
    {
        let mut i: usize = 0;
        while i < self.bt_devices.len()
            invariant
                i <= self.bt_devices@.len(),
                self.bt_devices@.len() == old(self).bt_devices@.len(),
                forall|k: int|
                    i <= k < self.bt_devices@.len() ==> #[trigger] self.bt_devices@[k] == old(self).bt_devices@[k],
                forall|k: int|
                    0 <= k < i ==> #[trigger] self.bt_devices@[k]@ == (BtDeviceView {
                        connected: false,
                        ..old(self).bt_devices@[k]@
                    }),
                *self == (WlcontrolManager { bt_devices: self.bt_devices, ..*old(self) }),
            decreases self.bt_devices@.len() - i,
        {
            let d = &self.bt_devices[i];
            let repl = bt_with_flags(d, false, d.connecting, d.disconnecting, d.removing);
            self.bt_devices.set(i, repl);
            i = i + 1;
        }
    }

    /// Drop every device the daemon never paired with: after a power-off
    /// only paired devices remain, pure discovery artifacts disappear.
    pub fn remove_unpaired_bt_devices(&mut self)
        ensures
            final(self).bt_devices@ == paired_only(old(self).bt_devices@),
            *final(self) == (WlcontrolManager { bt_devices: final(self).bt_devices, ..*old(self) }),
    {
        let ghost orig = self.bt_devices@;
        let mut i: usize = 0;
        let ghost mut j: int = 0;
        proof {
            assert(orig.take(0) =~= Seq::<BtDevice>::empty());
            assert(self.bt_devices@ =~= paired_only(orig.take(0)) + orig.skip(0));
        }
        while i < self.bt_devices.len()
            invariant
                0 <= j <= orig.len(),
                i == paired_only(orig.take(j)).len(),
                self.bt_devices@ == paired_only(orig.take(j)) + orig.skip(j),
                *self == (WlcontrolManager { bt_devices: self.bt_devices, ..*old(self) }),
                orig == old(self).bt_devices@,
            decreases orig.len() - j,
        {
            let ghost fp = paired_only(orig.take(j));
            proof {
                assert(orig.skip(j).len() > 0);
                assert(self.bt_devices@[i as int] == orig.skip(j)[0]);
                assert(orig.skip(j)[0] == orig[j]);
                assert(orig.take(j + 1).drop_last() =~= orig.take(j));
                assert(orig.take(j + 1).last() == orig[j]);
            }
            if self.bt_devices[i].paired {
                proof {
                    assert(paired_only(orig.take(j + 1)) == fp.push(orig[j]));
                    assert(self.bt_devices@ =~= paired_only(orig.take(j + 1)) + orig.skip(j + 1));
                    j = j + 1;
                }
                i = i + 1;
            } else {
                self.bt_devices.remove(i);
                proof {
                    assert(paired_only(orig.take(j + 1)) == fp);
                    assert((fp + orig.skip(j)).remove(i as int) =~= fp + orig.skip(j + 1));
                    j = j + 1;
                }
            }
        }
        proof {
            assert(orig.skip(orig.len() as int) =~= Seq::<BtDevice>::empty());
            assert(orig.take(orig.len() as int) =~= orig);
            assert(self.bt_devices@ =~= paired_only(orig));
        }
    }

    /// Fold one event from the core into the model and say what the
    /// surrounding client must be told beyond watching the lists themselves.
    ///
    /// Confirming events and errors clear optimistic operation flags: a
    /// connection event or a wireless error resets every wireless flag, a
    /// device-changed event clears that device's connecting and disconnecting
    /// flags, a Bluetooth error resets every device's flags.  A power-off of
    /// the Bluetooth adapter additionally drops the connected mark everywhere
    /// and the devices that were never paired.
    pub fn handle_event(&mut self, event: BackendEvent) -> (signals: Vec<UiSignal>)
        ensures
            event matches BackendEvent::WifiAvailable(b) ==> *final(self) == (WlcontrolManager {
                wifi_available: b,
                ..*old(self)
            }) && signals@ =~= Seq::<UiSignal>::empty(),
            event matches BackendEvent::BtAvailable(b) ==> *final(self) == (WlcontrolManager {
                bt_available: b,
                ..*old(self)
            }) && signals@ =~= Seq::<UiSignal>::empty(),
            event matches BackendEvent::WifiDevices { devices, active_path } ==> *final(self) == (
            WlcontrolManager {
                wifi_devices: devices,
                wifi_active_path: active_path,
                ..*old(self)
            }) && signals@ =~= Seq::<UiSignal>::empty(),
            event matches BackendEvent::WifiPowered(p) ==> *final(self) == (WlcontrolManager {
                wifi_powered: p,
                ..*old(self)
            }) && signals@ =~= Seq::<UiSignal>::empty(),
            event matches BackendEvent::WifiScanning(s) ==> *final(self) == (WlcontrolManager {
                wifi_scanning: s,
                ..*old(self)
            }) && signals@ =~= Seq::<UiSignal>::empty(),
            event matches BackendEvent::WifiNetworks(data) ==> {
                &&& final(self).wifi_networks@.len() == data@.len()
                &&& forall|i: int|
                    0 <= i < data@.len() ==> net_matches_data(
                        (#[trigger] final(self).wifi_networks@[i])@,
                        data@[i],
                    )
                &&& forall|i: int, j: int|
                    0 <= i < data@.len() && #[trigger] wifi_is_first_match(
                        old(self).wifi_networks@,
                        data@[i].path@,
                        j,
                    ) ==> {
                        &&& final(self).wifi_networks@[i]@.connecting == old(self).wifi_networks@[j]@.connecting
                        &&& final(self).wifi_networks@[i]@.disconnecting == old(self).wifi_networks@[j]@.disconnecting
                        &&& final(self).wifi_networks@[i]@.forgetting == old(self).wifi_networks@[j]@.forgetting
                    }
                &&& is_saved_offline_list(
                    final(self).saved_networks@,
                    final(self).cached_known@,
                    final(self).wifi_networks@,
                )
                &&& saved_from_known(final(self).saved_networks@, final(self).cached_known@)
                &&& forall|i: int|
                    0 <= i < final(self).saved_networks@.len() ==> !visible_pair_exists(
                        final(self).wifi_networks@,
                        (#[trigger] final(self).saved_networks@[i])@.name,
                        final(self).saved_networks@[i]@.network_type,
                    )
                &&& final(self).cached_known == old(self).cached_known
                &&& *final(self) == (WlcontrolManager {
                    wifi_networks: final(self).wifi_networks,
                    saved_networks: final(self).saved_networks,
                    ..*old(self)
                })
                &&& signals@ =~= Seq::<UiSignal>::empty()
            },
            event matches BackendEvent::WifiKnownNetworks(known) ==> {
                &&& final(self).cached_known == known
                &&& is_saved_offline_list(
                    final(self).saved_networks@,
                    final(self).cached_known@,
                    final(self).wifi_networks@,
                )
                &&& saved_from_known(final(self).saved_networks@, final(self).cached_known@)
                &&& forall|i: int|
                    0 <= i < final(self).saved_networks@.len() ==> !visible_pair_exists(
                        final(self).wifi_networks@,
                        (#[trigger] final(self).saved_networks@[i])@.name,
                        final(self).saved_networks@[i]@.network_type,
                    )
                &&& forall|j: int|
                    0 <= j < final(self).cached_known@.len() && !visible_pair_exists(
                        final(self).wifi_networks@,
                        (#[trigger] final(self).cached_known@[j]).name@,
                        final(self).cached_known@[j].network_type@,
                    ) ==> saved_list_has(final(self).saved_networks@, final(self).cached_known@[j])
                &&& *final(self) == (WlcontrolManager {
                    cached_known: final(self).cached_known,
                    saved_networks: final(self).saved_networks,
                    ..*old(self)
                })
                &&& signals@ =~= Seq::<UiSignal>::empty()
            },
            event matches BackendEvent::WifiConnected(path) ==> {
                &&& final(self).wifi_networks@.len() == old(self).wifi_networks@.len()
                &&& forall|i: int|
                    0 <= i < old(self).wifi_networks@.len() ==> #[trigger] final(self).wifi_networks@[i]@ == (WifiNetworkView {
                        connected: (path matches Some(p) && old(self).wifi_networks@[i]@.path
                            == p@),
                        connecting: false,
                        disconnecting: false,
                        forgetting: false,
                        ..old(self).wifi_networks@[i]@
                    })
                &&& *final(self) == (WlcontrolManager {
                    wifi_networks: final(self).wifi_networks,
                    ..*old(self)
                })
                &&& signals@ =~= seq![UiSignal::WifiNetworkUpdated]
            },
            event matches BackendEvent::WifiConnecting(path) ==> {
                &&& final(self).wifi_networks@.len() == old(self).wifi_networks@.len()
                &&& forall|i: int|
                    0 <= i < old(self).wifi_networks@.len() ==> #[trigger] final(self).wifi_networks@[i]@ == (WifiNetworkView {
                        connecting: old(self).wifi_networks@[i]@.path == path@,
                        ..old(self).wifi_networks@[i]@
                    })
                &&& *final(self) == (WlcontrolManager {
                    wifi_networks: final(self).wifi_networks,
                    ..*old(self)
                })
                &&& signals@ =~= seq![UiSignal::WifiNetworkUpdated]
            },
            event matches BackendEvent::WifiNetworkKnown { path } ==> {
                &&& final(self).wifi_networks@.len() == old(self).wifi_networks@.len()
                &&& forall|j: int|
                    #[trigger] wifi_is_first_match(old(self).wifi_networks@, path@, j) ==> final(self).wifi_networks@[j]@ == (WifiNetworkView {
                        known: true,
                        ..old(self).wifi_networks@[j]@
                    })
                &&& *final(self) == (WlcontrolManager {
                    wifi_networks: final(self).wifi_networks,
                    ..*old(self)
                })
                &&& signals@ =~= seq![UiSignal::WifiNetworkUpdated]
            },
            event matches BackendEvent::PassphraseRequest { network_path, network_name } ==> {
                &&& *final(self) == *old(self)
                &&& signals@ =~= seq![
                    UiSignal::PassphraseRequested { network_path, network_name },
                ]
            },
            event matches BackendEvent::CaptivePortal { url } ==> *final(self) == *old(self)
                && signals@ =~= seq![UiSignal::CaptivePortal { url }],
            event matches BackendEvent::BtPowered(p) ==> {
                &&& final(self).bt_powered == p
                &&& p ==> *final(self) == (WlcontrolManager { bt_powered: true, ..*old(self) })
                    && signals@ =~= Seq::<UiSignal>::empty()
                &&& !p ==> {
                    &&& !final(self).bt_discovering
                    &&& forall|i: int|
                        0 <= i < final(self).bt_devices@.len() ==> {
                            &&& (#[trigger] final(self).bt_devices@[i])@.paired
                            &&& !final(self).bt_devices@[i]@.connected
                            &&& final(self).bt_devices@[i]@.no_pending_op()
                        }
                    &&& forall|j: int|
                        0 <= j < old(self).bt_devices@.len() && (#[trigger] old(self).bt_devices@[j])@.paired ==> bt_has_address(
                            final(self).bt_devices@,
                            old(self).bt_devices@[j]@.address,
                        )
                    &&& *final(self) == (WlcontrolManager {
                        bt_powered: false,
                        bt_discovering: false,
                        bt_devices: final(self).bt_devices,
                        ..*old(self)
                    })
                    &&& signals@ =~= seq![UiSignal::BtDeviceUpdated]
                }
            },
            event matches BackendEvent::BtDiscovering(d) ==> *final(self) == (WlcontrolManager {
                bt_discovering: d,
                ..*old(self)
            }) && signals@ =~= Seq::<UiSignal>::empty(),
            event matches BackendEvent::BtDiscoverable(d) ==> *final(self) == (WlcontrolManager {
                bt_discoverable: d,
                ..*old(self)
            }) && signals@ =~= Seq::<UiSignal>::empty(),
            event matches BackendEvent::BtConnecting(address) ==> {
                &&& final(self).bt_devices@.len() == old(self).bt_devices@.len()
                &&& forall|i: int|
                    0 <= i < old(self).bt_devices@.len() ==> #[trigger] final(self).bt_devices@[i]@
                        == (BtDeviceView {
                        connecting: old(self).bt_devices@[i]@.address == address@,
                        ..old(self).bt_devices@[i]@
                    })
                &&& *final(self) == (WlcontrolManager {
                    bt_devices: final(self).bt_devices,
                    ..*old(self)
                })
                &&& signals@ =~= Seq::<UiSignal>::empty()
            },
            event matches BackendEvent::BtDeviceAdded(data) ==> {
                &&& !bt_has_address(old(self).bt_devices@, data.address@) ==> {
                    &&& final(self).bt_devices@.len() == old(self).bt_devices@.len() + 1
                    &&& forall|k: int|
                        0 <= k < old(self).bt_devices@.len() ==> #[trigger] final(self).bt_devices@[k] == old(self).bt_devices@[k]
                    &&& dev_matches_data(final(self).bt_devices@.last()@, data)
                    &&& final(self).bt_devices@.last()@.no_pending_op()
                    &&& signals@ =~= Seq::<UiSignal>::empty()
                }
                &&& bt_has_address(old(self).bt_devices@, data.address@) ==> {
                    &&& final(self).bt_devices@.len() == old(self).bt_devices@.len()
                    &&& forall|j: int|
                        #[trigger] bt_is_first_match(old(self).bt_devices@, data.address@, j)
                            ==> dev_matches_data(final(self).bt_devices@[j]@, data)
                    &&& signals@ =~= seq![UiSignal::BtDeviceUpdated]
                }
                &&& *final(self) == (WlcontrolManager {
                    bt_devices: final(self).bt_devices,
                    ..*old(self)
                })
            },
            event matches BackendEvent::BtDeviceChanged(data) ==> {
                &&& final(self).bt_devices@.len() == old(self).bt_devices@.len()
                &&& forall|j: int|
                    #[trigger] bt_is_first_match(old(self).bt_devices@, data.address@, j) ==> {
                        &&& dev_matches_data(final(self).bt_devices@[j]@, data)
                        &&& !final(self).bt_devices@[j]@.connecting
                        &&& !final(self).bt_devices@[j]@.disconnecting
                        &&& final(self).bt_devices@[j]@.removing == old(self).bt_devices@[j]@.removing
                        &&& forall|k: int|
                            0 <= k < old(self).bt_devices@.len() && k != j ==> #[trigger] final(self).bt_devices@[k] == old(self).bt_devices@[k]
                    }
                &&& !bt_has_address(old(self).bt_devices@, data.address@) ==> final(self).bt_devices@ == old(self).bt_devices@
                &&& *final(self) == (WlcontrolManager {
                    bt_devices: final(self).bt_devices,
                    ..*old(self)
                })
                &&& signals@ =~= seq![UiSignal::BtDeviceUpdated]
            },
            event matches BackendEvent::BtDeviceRemoved(address) ==> {
                &&& forall|j: int|
                    #[trigger] bt_is_first_match(old(self).bt_devices@, address@, j) ==> final(self).bt_devices@ == old(self).bt_devices@.remove(j)
                &&& !bt_has_address(old(self).bt_devices@, address@) ==> final(self).bt_devices@
                    == old(self).bt_devices@
                &&& *final(self) == (WlcontrolManager {
                    bt_devices: final(self).bt_devices,
                    ..*old(self)
                })
                &&& signals@ =~= Seq::<UiSignal>::empty()
            },
            event matches BackendEvent::BtPairing { kind, address } ==> *final(self) == *old(self)
                && signals@ =~= seq![UiSignal::BtPairing { kind, address }],
            event matches BackendEvent::BtError(message) ==> {
                &&& final(self).bt_devices@.len() == old(self).bt_devices@.len()
                &&& forall|i: int|
                    0 <= i < old(self).bt_devices@.len() ==> #[trigger] final(self).bt_devices@[i]@
                        == (BtDeviceView {
                        connecting: false,
                        disconnecting: false,
                        removing: false,
                        ..old(self).bt_devices@[i]@
                    })
                &&& *final(self) == (WlcontrolManager {
                    bt_devices: final(self).bt_devices,
                    ..*old(self)
                })
                &&& signals@ =~= seq![
                    UiSignal::BtDeviceUpdated,
                    UiSignal::ErrorNotice { message },
                ]
            },
            event matches BackendEvent::WifiError(message) ==> {
                &&& final(self).wifi_networks@.len() == old(self).wifi_networks@.len()
                &&& forall|i: int|
                    0 <= i < old(self).wifi_networks@.len() ==> #[trigger] final(self).wifi_networks@[i]@ == (WifiNetworkView {
                        connecting: false,
                        disconnecting: false,
                        forgetting: false,
                        ..old(self).wifi_networks@[i]@
                    })
                &&& *final(self) == (WlcontrolManager {
                    wifi_networks: final(self).wifi_networks,
                    ..*old(self)
                })
                &&& signals@ =~= seq![
                    UiSignal::WifiNetworkUpdated,
                    UiSignal::ErrorNotice { message },
                ]
            },
    {
        let mut signals: Vec<UiSignal> = Vec::new();
        match event {
            BackendEvent::WifiAvailable(b) => {
                self.wifi_available = b;
            },
            BackendEvent::BtAvailable(b) => {
                self.bt_available = b;
            },
            BackendEvent::WifiDevices { devices, active_path } => {
                self.wifi_devices = devices;
                self.wifi_active_path = active_path;
            },
            BackendEvent::WifiPowered(p) => {
                self.wifi_powered = p;
            },
            BackendEvent::WifiScanning(s) => {
                self.wifi_scanning = s;
            },
            BackendEvent::WifiNetworks(data) => {
                self.update_wifi_networks(&data);
                self.rebuild_saved_networks();
            },
            BackendEvent::WifiKnownNetworks(known) => {
                self.cached_known = known;
                self.rebuild_saved_networks();
            },
            BackendEvent::WifiConnected(path) => {
                self.clear_wifi_operations();
                self.update_wifi_connected(&path);
                signals.push(UiSignal::WifiNetworkUpdated);
            },
            BackendEvent::WifiConnecting(path) => {
                self.set_wifi_connecting(path.as_str());
                signals.push(UiSignal::WifiNetworkUpdated);
            },
            BackendEvent::WifiNetworkKnown { path } => {
                self.set_wifi_network_known(path.as_str());
                signals.push(UiSignal::WifiNetworkUpdated);
            },
            BackendEvent::PassphraseRequest { network_path, network_name } => {
                signals.push(UiSignal::PassphraseRequested { network_path, network_name });
            },
            BackendEvent::CaptivePortal { url } => {
                signals.push(UiSignal::CaptivePortal { url });
            },
            BackendEvent::BtPowered(p) => {
                if !p {
                    self.bt_discovering = false;
                    self.clear_bt_operations();
                    self.reset_bt_connected_state();
                    let ghost mid = self.bt_devices@;
                    self.remove_unpaired_bt_devices();
                    proof {
                        lemma_paired_only_props(mid);
                        assert forall|j: int|
                            0 <= j < old(self).bt_devices@.len() && (#[trigger] old(self).bt_devices@[j])@.paired implies bt_has_address(
                            self.bt_devices@,
                            old(self).bt_devices@[j]@.address,
                        ) by {
                            assert(mid[j]@.paired);
                            assert(paired_only(mid).contains(mid[j]));
                            let w = choose|w: int|
                                0 <= w < paired_only(mid).len() && paired_only(mid)[w] == mid[j];
                            assert(self.bt_devices@[w]@.address == old(self).bt_devices@[j]@.address);
                        }
                    }
                    signals.push(UiSignal::BtDeviceUpdated);
                }
                self.bt_powered = p;
            },
            BackendEvent::BtDiscovering(d) => {
                self.bt_discovering = d;
            },
            BackendEvent::BtDiscoverable(d) => {
                self.bt_discoverable = d;
            },
            BackendEvent::BtConnecting(address) => {
                self.set_bt_connecting(address.as_str());
            },
            BackendEvent::BtDeviceAdded(data) => {
                let existed = self.add_bt_device(&data);
                if existed {
                    signals.push(UiSignal::BtDeviceUpdated);
                }
            },
            BackendEvent::BtDeviceChanged(data) => {
                self.update_bt_device(&data);
                if let Some(i) = find_bt_device_index(&self.bt_devices, data.address.as_str()) {
                    let d = &self.bt_devices[i];
                    let repl = bt_with_flags(d, d.connected, false, false, d.removing);
                    self.bt_devices.set(i, repl);
                }
                signals.push(UiSignal::BtDeviceUpdated);
            },
            BackendEvent::BtDeviceRemoved(address) => {
                self.remove_bt_device(address.as_str());
            },
            BackendEvent::BtPairing { kind, address } => {
                signals.push(UiSignal::BtPairing { kind, address });
            },
            BackendEvent::BtError(message) => {
                self.clear_bt_operations();
                signals.push(UiSignal::BtDeviceUpdated);
                signals.push(UiSignal::ErrorNotice { message });
            },
            BackendEvent::WifiError(message) => {
                self.clear_wifi_operations();
                signals.push(UiSignal::WifiNetworkUpdated);
                signals.push(UiSignal::ErrorNotice { message });
            },
        }
        signals
    }
}

impl WlcontrolManager {
    /// Ask for a scan.
    pub fn request_wifi_scan(&mut self) -> (cmd: BackendCommand)
        ensures
            *final(self) == *old(self),
            cmd is WifiScan,
    {
        BackendCommand::WifiScan
    }

    /// Ask to connect to the network at `path`.
    pub fn request_wifi_connect(&mut self, path: &str) -> (cmd: BackendCommand)
        ensures
            *final(self) == *old(self),
            cmd matches BackendCommand::WifiConnect { path: p } && p@ == path@,
    {
        BackendCommand::WifiConnect { path: path.to_owned() }
    }

    /// Ask to disconnect, marking the connected network as disconnecting for
    /// instant feedback.
    pub fn request_wifi_disconnect(&mut self) -> (cmd: BackendCommand)
        ensures
            cmd is WifiDisconnect,
            final(self).wifi_networks@.len() == old(self).wifi_networks@.len(),
            forall|j: int|
                0 <= j < old(self).wifi_networks@.len() && (#[trigger] old(self).wifi_networks@[j]@).connected && (forall|k: int|
                    0 <= k < j ==> !(#[trigger] old(self).wifi_networks@[k]@).connected) ==> {
                    &&& final(self).wifi_networks@[j]@ == (WifiNetworkView {
                        disconnecting: true,
                        ..old(self).wifi_networks@[j]@
                    })
                    &&& forall|k: int|
                        0 <= k < old(self).wifi_networks@.len() && k != j ==> #[trigger] final(self).wifi_networks@[k] == old(self).wifi_networks@[k]
                },
            (forall|j: int|
                0 <= j < old(self).wifi_networks@.len() ==> !(#[trigger] old(self).wifi_networks@[j]@).connected) ==> final(self).wifi_networks@ == old(self).wifi_networks@,
            *final(self) == (WlcontrolManager {
                wifi_networks: final(self).wifi_networks,
                ..*old(self)
            }),
    {
        self.set_wifi_disconnecting_on_connected();
        BackendCommand::WifiDisconnect
    }

    /// Ask to forget the visible network at `path`, marking it as forgetting.
    pub fn request_wifi_forget(&mut self, path: &str) -> (cmd: BackendCommand)
        ensures
            cmd matches BackendCommand::WifiForget { path: p } && p@ == path@,
            final(self).wifi_networks@.len() == old(self).wifi_networks@.len(),
            forall|j: int|
                #[trigger] wifi_is_first_match(old(self).wifi_networks@, path@, j) ==> {
                    &&& final(self).wifi_networks@[j]@ == (WifiNetworkView {
                        forgetting: true,
                        ..old(self).wifi_networks@[j]@
                    })
                    &&& forall|k: int|
                        0 <= k < old(self).wifi_networks@.len() && k != j ==> #[trigger] final(self).wifi_networks@[k] == old(self).wifi_networks@[k]
                },
            !wifi_has_path(old(self).wifi_networks@, path@) ==> final(self).wifi_networks@ == old(self).wifi_networks@,
            *final(self) == (WlcontrolManager {
                wifi_networks: final(self).wifi_networks,
                ..*old(self)
            }),
    {
        self.set_wifi_forgetting(path);
        BackendCommand::WifiForget { path: path.to_owned() }
    }

    /// Ask to forget a saved network that is out of range, marking its
    /// saved-list entry as forgetting.
    pub fn request_wifi_forget_known(&mut self, path: &str) -> (cmd: BackendCommand)
        ensures
            cmd matches BackendCommand::WifiForgetKnown { path: p } && p@ == path@,
            final(self).saved_networks@.len() == old(self).saved_networks@.len(),
            forall|j: int|
                #[trigger] wifi_is_first_match(old(self).saved_networks@, path@, j) ==> {
                    &&& final(self).saved_networks@[j]@ == (WifiNetworkView {
                        forgetting: true,
                        ..old(self).saved_networks@[j]@
                    })
                    &&& forall|k: int|
                        0 <= k < old(self).saved_networks@.len() && k != j ==> #[trigger] final(self).saved_networks@[k] == old(self).saved_networks@[k]
                },
            !wifi_has_path(old(self).saved_networks@, path@) ==> final(self).saved_networks@ == old(self).saved_networks@,
            *final(self) == (WlcontrolManager {
                saved_networks: final(self).saved_networks,
                ..*old(self)
            }),
    {
        self.set_saved_forgetting(path);
        BackendCommand::WifiForgetKnown { path: path.to_owned() }
    }

    /// Answer an outstanding passphrase request.
    pub fn send_passphrase_response(&mut self, passphrase: Option<String>) -> (cmd: BackendCommand)
        ensures
            *final(self) == *old(self),
            cmd matches BackendCommand::PassphraseResponse { passphrase: p } && p == passphrase,
    {
        BackendCommand::PassphraseResponse { passphrase }
    }

    /// Ask to start Bluetooth discovery.
    pub fn request_bt_scan(&mut self) -> (cmd: BackendCommand)
        ensures
            *final(self) == *old(self),
            cmd is BtScan,
    {
        BackendCommand::BtScan
    }

    /// Ask to stop Bluetooth discovery.
    pub fn request_bt_stop_scan(&mut self) -> (cmd: BackendCommand)
        ensures
            *final(self) == *old(self),
            cmd is BtStopScan,
    {
        BackendCommand::BtStopScan
    }

    /// Mark the first device keyed by `address` with the given operation
    /// flags where `Some`, leaving the others; nothing else changes.
    fn set_bt_device_flags(
        &mut self,
        address: &str,
        connecting: Option<bool>,
        disconnecting: Option<bool>,
        removing: Option<bool>,
    )
        ensures
            final(self).bt_devices@.len() == old(self).bt_devices@.len(),
            forall|j: int|
                #[trigger] bt_is_first_match(old(self).bt_devices@, address@, j) ==> {
                    &&& final(self).bt_devices@[j]@ == (BtDeviceView {
                        connecting: match connecting {
                            Some(c) => c,
                            None => old(self).bt_devices@[j]@.connecting,
                        },
                        disconnecting: match disconnecting {
                            Some(c) => c,
                            None => old(self).bt_devices@[j]@.disconnecting,
                        },
                        removing: match removing {
                            Some(c) => c,
                            None => old(self).bt_devices@[j]@.removing,
                        },
                        ..old(self).bt_devices@[j]@
                    })
                    &&& forall|k: int|
                        0 <= k < old(self).bt_devices@.len() && k != j ==> #[trigger] final(self).bt_devices@[k] == old(self).bt_devices@[k]
                },
            !bt_has_address(old(self).bt_devices@, address@) ==> final(self).bt_devices@ == old(self).bt_devices@,
            *final(self) == (WlcontrolManager { bt_devices: final(self).bt_devices, ..*old(self) }),
    {
        if let Some(i) = find_bt_device_index(&self.bt_devices, address) {
            let d = &self.bt_devices[i];
            let c = match connecting {
                Some(c) => c,
                None => d.connecting,
            };
            let dc = match disconnecting {
                Some(c) => c,
                None => d.disconnecting,
            };
            let rm = match removing {
                Some(c) => c,
                None => d.removing,
            };
            let repl = bt_with_flags(d, d.connected, c, dc, rm);
            self.bt_devices.set(i, repl);
        }
    }

    /// Ask to connect to the device at `address`, marking it as connecting.
    /// The disconnecting flag is cleared with the same stroke, so at most one
    /// of the two ever stands, and no other entry moves.
    pub fn request_bt_connect(&mut self, address: &str) -> (cmd: BackendCommand)
        ensures
            cmd matches BackendCommand::BtConnect { path: p } && p@ == address@,
            final(self).bt_devices@.len() == old(self).bt_devices@.len(),
            forall|j: int|
                #[trigger] bt_is_first_match(old(self).bt_devices@, address@, j) ==> {
                    &&& final(self).bt_devices@[j]@ == (BtDeviceView {
                        connecting: true,
                        disconnecting: false,
                        ..old(self).bt_devices@[j]@
                    })
                    &&& forall|k: int|
                        0 <= k < old(self).bt_devices@.len() && k != j ==> #[trigger] final(self).bt_devices@[k] == old(self).bt_devices@[k]
                },
            !bt_has_address(old(self).bt_devices@, address@) ==> final(self).bt_devices@ == old(self).bt_devices@,
            *final(self) == (WlcontrolManager { bt_devices: final(self).bt_devices, ..*old(self) }),
    {
        self.set_bt_device_flags(address, Some(true), Some(false), None);
        BackendCommand::BtConnect { path: address.to_owned() }
    }

    /// Ask to disconnect from the device at `address`, marking it as
    /// disconnecting.  The connecting flag is cleared with the same stroke,
    /// so at most one of the two ever stands, and no other entry moves.
    pub fn request_bt_disconnect(&mut self, address: &str) -> (cmd: BackendCommand)
        ensures
            cmd matches BackendCommand::BtDisconnect { path: p } && p@ == address@,
            final(self).bt_devices@.len() == old(self).bt_devices@.len(),
            forall|j: int|
                #[trigger] bt_is_first_match(old(self).bt_devices@, address@, j) ==> {
                    &&& final(self).bt_devices@[j]@ == (BtDeviceView {
                        connecting: false,
                        disconnecting: true,
                        ..old(self).bt_devices@[j]@
                    })
                    &&& forall|k: int|
                        0 <= k < old(self).bt_devices@.len() && k != j ==> #[trigger] final(self).bt_devices@[k] == old(self).bt_devices@[k]
                },
            !bt_has_address(old(self).bt_devices@, address@) ==> final(self).bt_devices@ == old(self).bt_devices@,
            *final(self) == (WlcontrolManager { bt_devices: final(self).bt_devices, ..*old(self) }),
    {
        self.set_bt_device_flags(address, Some(false), Some(true), None);
        BackendCommand::BtDisconnect { path: address.to_owned() }
    }

    /// Ask to pair with the device at `address`, marking it as connecting —
    /// its canonical state reads Pairing while it is not yet paired.  The
    /// disconnecting flag is cleared with the same stroke, so at most one of
    /// the two ever stands, and no other entry moves.
    pub fn request_bt_pair(&mut self, address: &str) -> (cmd: BackendCommand)
        ensures
            cmd matches BackendCommand::BtPair { path: p } && p@ == address@,
            final(self).bt_devices@.len() == old(self).bt_devices@.len(),
            forall|j: int|
                #[trigger] bt_is_first_match(old(self).bt_devices@, address@, j) ==> {
                    &&& final(self).bt_devices@[j]@ == (BtDeviceView {
                        connecting: true,
                        disconnecting: false,
                        ..old(self).bt_devices@[j]@
                    })
                    &&& forall|k: int|
                        0 <= k < old(self).bt_devices@.len() && k != j ==> #[trigger] final(self).bt_devices@[k] == old(self).bt_devices@[k]
                },
            !bt_has_address(old(self).bt_devices@, address@) ==> final(self).bt_devices@ == old(self).bt_devices@,
            *final(self) == (WlcontrolManager { bt_devices: final(self).bt_devices, ..*old(self) }),
    {
        self.set_bt_device_flags(address, Some(true), Some(false), None);
        BackendCommand::BtPair { path: address.to_owned() }
    }

    /// Ask to remove the device at `address`, marking it as removing; no
    /// other entry moves.
    pub fn request_bt_remove(&mut self, address: &str) -> (cmd: BackendCommand)
        ensures
            cmd matches BackendCommand::BtRemove { path: p } && p@ == address@,
            final(self).bt_devices@.len() == old(self).bt_devices@.len(),
            forall|j: int|
                #[trigger] bt_is_first_match(old(self).bt_devices@, address@, j) ==> {
                    &&& final(self).bt_devices@[j]@ == (BtDeviceView {
                        removing: true,
                        ..old(self).bt_devices@[j]@
                    })
                    &&& forall|k: int|
                        0 <= k < old(self).bt_devices@.len() && k != j ==> #[trigger] final(self).bt_devices@[k] == old(self).bt_devices@[k]
                },
            !bt_has_address(old(self).bt_devices@, address@) ==> final(self).bt_devices@ == old(self).bt_devices@,
            *final(self) == (WlcontrolManager { bt_devices: final(self).bt_devices, ..*old(self) }),
    {
        self.set_bt_device_flags(address, None, None, Some(true));
        BackendCommand::BtRemove { path: address.to_owned() }
    }

    /// Ask to rename the device at `address`.
    pub fn request_bt_set_alias(&mut self, address: &str, alias: &str) -> (cmd: BackendCommand)
        ensures
            *final(self) == *old(self),
            cmd matches BackendCommand::BtSetAlias { path: p, alias: a } && p@ == address@ && a@
                == alias@,
    {
        BackendCommand::BtSetAlias { path: address.to_owned(), alias: alias.to_owned() }
    }

    /// Ask to mark the device at `address` as trusted or untrusted.
    pub fn request_bt_set_trusted(&mut self, address: &str, trusted: bool) -> (cmd: BackendCommand)
        ensures
            *final(self) == *old(self),
            cmd matches BackendCommand::BtSetTrusted { path: p, trusted: t } && p@ == address@ && t
                == trusted,
    {
        BackendCommand::BtSetTrusted { path: address.to_owned(), trusted }
    }

    /// Answer an outstanding pairing confirmation or authorization.
    pub fn send_bt_pairing_response(&mut self, accept: bool) -> (cmd: BackendCommand)
        ensures
            *final(self) == *old(self),
            cmd matches BackendCommand::BtPairingResponse { accept: a } && a == accept,
    {
        BackendCommand::BtPairingResponse { accept }
    }

    /// Answer an outstanding PIN request.
    pub fn send_bt_pairing_pin(&mut self, pin: Option<String>) -> (cmd: BackendCommand)
        ensures
            *final(self) == *old(self),
            cmd matches BackendCommand::BtPairingPinResponse { pin: p } && p == pin,
    {
        BackendCommand::BtPairingPinResponse { pin }
    }

    /// Answer an outstanding passkey request.
    pub fn send_bt_pairing_passkey(&mut self, passkey: Option<u32>) -> (cmd: BackendCommand)
        ensures
            *final(self) == *old(self),
            cmd matches BackendCommand::BtPairingPasskeyResponse { passkey: p } && p == passkey,
    {
        BackendCommand::BtPairingPasskeyResponse { passkey }
    }
}

/// What the surrounding client is told beyond the list contents: requests for
/// interactive input, one-shot notices, and change notifications.
pub enum UiSignal {
    /// The station daemon wants a passphrase for a network.
    PassphraseRequested { network_path: String, network_name: String },
    /// A captive portal was detected; the client should offer to open it.
    CaptivePortal { url: String },
    /// Some wireless entries changed state.
    WifiNetworkUpdated,
    /// Some device entries changed state.
    BtDeviceUpdated,
    /// The Bluetooth daemon wants a pairing interaction.
    BtPairing { kind: BtPairingKind, address: String },
    /// A translated error to show once.
    ErrorNotice { message: String },
}

} // verus!
