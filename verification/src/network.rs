//! One wireless network as shown to the user: daemon-reported properties plus
//! the local operation flags, and the canonical state derived from them.

use vstd::prelude::*;
use vstd::string::StrSliceExecFns;

use crate::text::str_eq;

verus! {

/// Canonical network state, derived from daemon properties plus local
/// operation flags.  Local flags take priority over daemon truth, giving
/// instant feedback before the daemon confirms.
#[derive(Clone, Copy, Debug, PartialEq, Eq, Structural)]
pub enum WifiNetworkState {
    Available,
    Saved,
    SavedOffline,
    Connecting,
    Connected,
    Disconnecting,
    Forgetting,
}

/// The mathematical image of a network entry: every string as its character
/// sequence.  Contracts speak of this view.
pub struct WifiNetworkView {
    pub path: Seq<char>,
    pub name: Seq<char>,
    pub network_type: Seq<char>,
    pub signal_strength: i16,
    pub connected: bool,
    pub known: bool,
    pub offline: bool,
    pub connecting: bool,
    pub disconnecting: bool,
    pub forgetting: bool,
}

/// A wireless network entry.  The path is the stable key; the local flags
/// `connecting`, `disconnecting` and `forgetting` are optimistic, set by the
/// client before the daemon confirms, and cleared only by a later confirming
/// event or an error.
pub struct WifiNetwork {
    pub path: String,
    pub name: String,
    /// Security type: "open", "psk" or "8021x".
    pub network_type: String,
    /// Signal strength in centi-dBm as the station daemon reports it.
    pub signal_strength: i16,
    pub connected: bool,
    pub known: bool,
    /// A saved network that is not in the current scan results.
    pub offline: bool,
    pub connecting: bool,
    pub disconnecting: bool,
    pub forgetting: bool,
}

impl View for WifiNetwork {
    type V = WifiNetworkView;

    open spec fn view(&self) -> WifiNetworkView {
        WifiNetworkView {
            path: self.path@,
            name: self.name@,
            network_type: self.network_type@,
            signal_strength: self.signal_strength,
            connected: self.connected,
            known: self.known,
            offline: self.offline,
            connecting: self.connecting,
            disconnecting: self.disconnecting,
            forgetting: self.forgetting,
        }
    }
}

impl WifiNetworkView {
    /// The canonical state of the viewed entry.
    pub open spec fn state_spec(&self) -> WifiNetworkState {
        if self.forgetting {
            WifiNetworkState::Forgetting
        } else if self.disconnecting {
            WifiNetworkState::Disconnecting
        } else if self.connecting {
            WifiNetworkState::Connecting
        } else if self.connected {
            WifiNetworkState::Connected
        } else if self.known && self.offline {
            WifiNetworkState::SavedOffline
        } else if self.known {
            WifiNetworkState::Saved
        } else {
            WifiNetworkState::Available
        }
    }

    /// No operation flag is set.
    pub open spec fn no_pending_op(&self) -> bool {
        !self.connecting && !self.disconnecting && !self.forgetting
    }
}

impl WifiNetwork {
    /// The canonical state as the documented priority list derives it:
    /// Forgetting > Disconnecting > Connecting > Connected >
    /// SavedOffline (known and offline) > Saved (known) > Available.
    pub open spec fn state_spec(&self) -> WifiNetworkState {
        if self.forgetting {
            WifiNetworkState::Forgetting
        } else if self.disconnecting {
            WifiNetworkState::Disconnecting
        } else if self.connecting {
            WifiNetworkState::Connecting
        } else if self.connected {
            WifiNetworkState::Connected
        } else if self.known && self.offline {
            WifiNetworkState::SavedOffline
        } else if self.known {
            WifiNetworkState::Saved
        } else {
            WifiNetworkState::Available
        }
    }

    /// No operation flag is set.
    pub open spec fn no_pending_op(&self) -> bool {
        !self.connecting && !self.disconnecting && !self.forgetting
    }

    pub fn new(
        path: &str,
        name: &str,
        network_type: &str,
        signal_strength: i16,
        connected: bool,
        known: bool,
    ) -> (n: WifiNetwork)
        ensures
            n.path@ == path@,
            n.name@ == name@,
            n.network_type@ == network_type@,
            n.signal_strength == signal_strength,
            n.connected == connected,
            n.known == known,
            !n.offline,
            n.no_pending_op(),
    {
        WifiNetwork {
            path: path.to_owned(),
            name: name.to_owned(),
            network_type: network_type.to_owned(),
            signal_strength,
            connected,
            known,
            offline: false,
            connecting: false,
            disconnecting: false,
            forgetting: false,
        }
    }

    /// A saved network that the current scan does not see.
    pub fn new_saved_offline(path: &str, name: &str, network_type: &str) -> (n: WifiNetwork)
        ensures
            n.path@ == path@,
            n.name@ == name@,
            n.network_type@ == network_type@,
            n.signal_strength == 0,
            !n.connected,
            n.known,
            n.offline,
            n.no_pending_op(),
    {
        WifiNetwork {
            path: path.to_owned(),
            name: name.to_owned(),
            network_type: network_type.to_owned(),
            signal_strength: 0,
            connected: false,
            known: true,
            offline: true,
            connecting: false,
            disconnecting: false,
            forgetting: false,
        }
    }

    /// Derive the canonical state; local operations win over daemon state.
    pub fn state(&self) -> (s: WifiNetworkState)
        ensures
            s == self.state_spec(),
    {
        if self.forgetting {
            return WifiNetworkState::Forgetting;
        }
        if self.disconnecting {
            return WifiNetworkState::Disconnecting;
        }
        if self.connecting {
            return WifiNetworkState::Connecting;
        }
        if self.connected {
            return WifiNetworkState::Connected;
        }
        if self.known && self.offline {
            return WifiNetworkState::SavedOffline;
        }
        if self.known {
            return WifiNetworkState::Saved;
        }
        WifiNetworkState::Available
    }

    /// Whether connecting needs credentials: every type but "open".
    pub fn is_secured(&self) -> (r: bool)
        ensures
            r == (self.network_type@ != "open"@),
    {
        !str_eq(self.network_type.as_str(), "open")
    }

    /// Signal strength in dBm; the daemon reports centi-dBm.
    pub fn signal_dbm(&self) -> (r: i16)
        ensures
            r == cbm_to_dbm(self.signal_strength as int),
    {
        signal_dbm_of(self.signal_strength)
    }

    /// Signal icon for the reported strength.
    pub fn signal_icon(&self) -> (r: &'static str)
        ensures
            r@ == signal_icon_text(self.signal_strength as int),
    {
        let dbm = signal_dbm_of(self.signal_strength);
        if dbm >= -50 && dbm <= 0 {
            "network-wireless-signal-excellent-symbolic"
        } else if dbm >= -60 && dbm <= -51 {
            "network-wireless-signal-good-symbolic"
        } else if dbm >= -70 && dbm <= -61 {
            "network-wireless-signal-ok-symbolic"
        } else {
            "network-wireless-signal-weak-symbolic"
        }
    }
}

/// Centi-dBm to dBm, rounding toward zero.
pub open spec fn cbm_to_dbm(s: int) -> int {
    if s >= 0 {
        s / 100
    } else {
        -((-s) / 100)
    }
}

/// Centi-dBm to dBm on machine integers.
fn signal_dbm_of(s: i16) -> (r: i16)
    ensures
        r == cbm_to_dbm(s as int),
{
    let wide: i32 = s as i32;
    let neg = wide < 0;
    let mag: i32 = if neg {
        -wide
    } else {
        wide
    };
    let q: i32 = mag / 100;
    let out: i32 = if neg {
        -q
    } else {
        q
    };
    out as i16
}

/// Signal icon assignment for a centi-dBm signal strength.
pub open spec fn signal_icon_text(signal_strength: int) -> Seq<char> {
    let dbm = cbm_to_dbm(signal_strength);
    if -50 <= dbm <= 0 {
        "network-wireless-signal-excellent-symbolic"@
    } else if -60 <= dbm <= -51 {
        "network-wireless-signal-good-symbolic"@
    } else if -70 <= dbm <= -61 {
        "network-wireless-signal-ok-symbolic"@
    } else {
        "network-wireless-signal-weak-symbolic"@
    }
}

/// The canonical wireless state priority is total and deterministic: for
/// every combination of flags exactly one state results, and it is the one
/// the documented priority list picks.
pub proof fn lemma_wifi_state_priority(n: WifiNetwork)
    ensures
        n.forgetting ==> n.state_spec() == WifiNetworkState::Forgetting,
        !n.forgetting && n.disconnecting ==> n.state_spec() == WifiNetworkState::Disconnecting,
        !n.forgetting && !n.disconnecting && n.connecting ==> n.state_spec()
            == WifiNetworkState::Connecting,
        !n.forgetting && !n.disconnecting && !n.connecting && n.connected ==> n.state_spec()
            == WifiNetworkState::Connected,
        !n.forgetting && !n.disconnecting && !n.connecting && !n.connected && n.known && n.offline
            ==> n.state_spec() == WifiNetworkState::SavedOffline,
        !n.forgetting && !n.disconnecting && !n.connecting && !n.connected && n.known && !n.offline
            ==> n.state_spec() == WifiNetworkState::Saved,
        !n.forgetting && !n.disconnecting && !n.connecting && !n.connected && !n.known
            ==> n.state_spec() == WifiNetworkState::Available,
{
}

} // verus!
