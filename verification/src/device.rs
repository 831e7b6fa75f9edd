//! One Bluetooth device as shown to the user: daemon-reported properties plus
//! the local operation flags, and the canonical state derived from them.

use vstd::prelude::*;
use vstd::string::StrSliceExecFns;

use crate::text::str_eq;
use crate::types::BtDeviceData;

verus! {

/// Canonical device state, derived from daemon properties plus local
/// operation flags.  Local operations take priority over daemon truth.
#[derive(Clone, Copy, Debug, PartialEq, Eq, Structural)]
pub enum BtDeviceState {
    Discovered,
    Pairing,
    Paired,
    Connecting,
    Connected,
    Disconnecting,
    Removing,
}

/// The mathematical image of a device entry: every string as its character
/// sequence.  Contracts speak of this view.
pub struct BtDeviceView {
    pub path: Seq<char>,
    pub address: Seq<char>,
    pub name: Seq<char>,
    pub alias: Seq<char>,
    pub icon: Seq<char>,
    pub paired: bool,
    pub trusted: bool,
    pub connected: bool,
    pub connecting: bool,
    pub disconnecting: bool,
    pub removing: bool,
    pub battery_percentage: i32,
    pub rssi: i16,
}

/// A Bluetooth device entry.  The address is the stable key; the local flags
/// `connecting`, `disconnecting` and `removing` are optimistic, set by the
/// client before the daemon confirms.  A later confirming event or an error
/// clears them, and a new request replaces them, clearing its opposite: the
/// connecting and disconnecting flags never stand together.
pub struct BtDevice {
    pub path: String,
    pub address: String,
    pub name: String,
    pub alias: String,
    pub icon: String,
    pub paired: bool,
    pub trusted: bool,
    pub connected: bool,
    pub connecting: bool,
    pub disconnecting: bool,
    pub removing: bool,
    /// Battery percentage; -1 when the daemon reports none.
    pub battery_percentage: i32,
    /// Received signal strength; `i16::MIN` when the daemon reports none.
    pub rssi: i16,
}

impl View for BtDevice {
    type V = BtDeviceView;

    open spec fn view(&self) -> BtDeviceView {
        BtDeviceView {
            path: self.path@,
            address: self.address@,
            name: self.name@,
            alias: self.alias@,
            icon: self.icon@,
            paired: self.paired,
            trusted: self.trusted,
            connected: self.connected,
            connecting: self.connecting,
            disconnecting: self.disconnecting,
            removing: self.removing,
            battery_percentage: self.battery_percentage,
            rssi: self.rssi,
        }
    }
}

impl BtDeviceView {
    /// The canonical state of the viewed entry.
    pub open spec fn state_spec(&self) -> BtDeviceState {
        if self.removing {
            BtDeviceState::Removing
        } else if self.disconnecting {
            BtDeviceState::Disconnecting
        } else if self.connecting {
            if self.paired {
                BtDeviceState::Connecting
            } else {
                BtDeviceState::Pairing
            }
        } else if self.connected {
            BtDeviceState::Connected
        } else if self.paired {
            BtDeviceState::Paired
        } else {
            BtDeviceState::Discovered
        }
    }

    /// No operation flag is set.
    pub open spec fn no_pending_op(&self) -> bool {
        !self.connecting && !self.disconnecting && !self.removing
    }
}

impl BtDevice {
    /// The canonical state as the documented priority list derives it:
    /// Removing > Disconnecting > Connecting (Pairing when not yet paired) >
    /// Connected > Paired > Discovered.
    pub open spec fn state_spec(&self) -> BtDeviceState {
        if self.removing {
            BtDeviceState::Removing
        } else if self.disconnecting {
            BtDeviceState::Disconnecting
        } else if self.connecting {
            if self.paired {
                BtDeviceState::Connecting
            } else {
                BtDeviceState::Pairing
            }
        } else if self.connected {
            BtDeviceState::Connected
        } else if self.paired {
            BtDeviceState::Paired
        } else {
            BtDeviceState::Discovered
        }
    }

    /// No operation flag is set: the device is at rest as far as the client
    /// is concerned.
    pub open spec fn no_pending_op(&self) -> bool {
        !self.connecting && !self.disconnecting && !self.removing
    }

    pub fn new(path: &str, address: &str, name: &str, icon: &str, paired: bool, connected: bool)
        -> (d: BtDevice)
        ensures
            d.path@ == path@,
            d.address@ == address@,
            d.name@ == name@,
            d.alias@ == name@,
            d.icon@ == icon@,
            d.paired == paired,
            d.connected == connected,
            !d.trusted,
            d.no_pending_op(),
            d.battery_percentage == -1,
            d.rssi == i16::MIN,
    {
        BtDevice {
            path: path.to_owned(),
            address: address.to_owned(),
            name: name.to_owned(),
            alias: name.to_owned(),
            icon: icon.to_owned(),
            paired,
            trusted: false,
            connected,
            connecting: false,
            disconnecting: false,
            removing: false,
            battery_percentage: -1,
            rssi: i16::MIN,
        }
    }

    /// Derive the canonical state; local operations win over daemon state.
    pub fn state(&self) -> (s: BtDeviceState)
        ensures
            s == self.state_spec(),
    {
        if self.removing {
            return BtDeviceState::Removing;
        }
        if self.disconnecting {
            return BtDeviceState::Disconnecting;
        }
        if self.connecting {
            return if self.paired {
                BtDeviceState::Connecting
            } else {
                BtDeviceState::Pairing
            };
        }
        if self.connected {
            return BtDeviceState::Connected;
        }
        if self.paired {
            return BtDeviceState::Paired;
        }
        BtDeviceState::Discovered
    }

    /// The name shown to the user: the alias when present, else the daemon
    /// name, else the bare address.
    pub fn display_name(&self) -> (r: String)
        ensures
            r@ == self.display_name_spec(),
    {
        if !self.alias.as_str().is_empty() {
            self.alias.clone()
        } else if !self.name.as_str().is_empty() {
            self.name.clone()
        } else {
            self.address.clone()
        }
    }

    pub open spec fn display_name_spec(&self) -> Seq<char> {
        if self.alias@.len() != 0 {
            self.alias@
        } else if self.name@.len() != 0 {
            self.name@
        } else {
            self.address@
        }
    }

    /// Whether the daemon reported a battery level.
    pub fn has_battery(&self) -> (r: bool)
        ensures
            r == (self.battery_percentage >= 0),
    {
        self.battery_percentage >= 0
    }

    /// Signal-strength icon, or `None` when the daemon reported no signal.
    pub fn rssi_icon(&self) -> (r: Option<&'static str>)
        ensures
            self.rssi == i16::MIN ==> r is None,
            self.rssi != i16::MIN ==> (r matches Some(n) && n@ == rssi_icon_text(self.rssi as int)),
    {
        if self.rssi == i16::MIN {
            return None;
        }
        if self.rssi >= -50 && self.rssi <= 0 {
            Some("network-wireless-signal-excellent-symbolic")
        } else if self.rssi >= -70 && self.rssi <= -51 {
            Some("network-wireless-signal-good-symbolic")
        } else if self.rssi >= -80 && self.rssi <= -71 {
            Some("network-wireless-signal-ok-symbolic")
        } else {
            Some("network-wireless-signal-weak-symbolic")
        }
    }

    /// Icon for the device class.
    pub fn device_icon(&self) -> (r: &'static str)
        ensures
            r@ == device_icon_text(self.icon@),
    {
        let icon = self.icon.as_str();
        if str_eq(icon, "audio-card") || str_eq(icon, "audio-headphones") || str_eq(
            icon,
            "audio-headset",
        ) {
            "audio-headphones-symbolic"
        } else if str_eq(icon, "input-keyboard") {
            "input-keyboard-symbolic"
        } else if str_eq(icon, "input-mouse") {
            "input-mouse-symbolic"
        } else if str_eq(icon, "input-gaming") {
            "input-gaming-symbolic"
        } else if str_eq(icon, "phone") {
            "phone-symbolic"
        } else if str_eq(icon, "computer") {
            "computer-symbolic"
        } else {
            "bluetooth-symbolic"
        }
    }

    /// Human-readable device type derived from the device class.
    pub fn device_type_name(&self) -> (r: &'static str)
        ensures
            r@ == device_type_text(self.icon@),
    {
        let icon = self.icon.as_str();
        if str_eq(icon, "audio-card") {
            "Audio"
        } else if str_eq(icon, "audio-headphones") {
            "Headphones"
        } else if str_eq(icon, "audio-headset") {
            "Headset"
        } else if str_eq(icon, "input-keyboard") {
            "Keyboard"
        } else if str_eq(icon, "input-mouse") {
            "Mouse"
        } else if str_eq(icon, "input-gaming") {
            "Gamepad"
        } else if str_eq(icon, "phone") {
            "Phone"
        } else if str_eq(icon, "computer") {
            "Computer"
        } else {
            "Bluetooth Device"
        }
    }

    /// Battery icon for the reported percentage.
    pub fn battery_icon(&self) -> (r: &'static str)
        ensures
            r@ == battery_icon_text(self.battery_percentage as int),
    {
        let p = self.battery_percentage;
        if p >= 90 && p <= 100 {
            "battery-level-100-symbolic"
        } else if p >= 70 && p <= 89 {
            "battery-level-80-symbolic"
        } else if p >= 50 && p <= 69 {
            "battery-level-60-symbolic"
        } else if p >= 30 && p <= 49 {
            "battery-level-40-symbolic"
        } else if p >= 10 && p <= 29 {
            "battery-level-20-symbolic"
        } else if p >= 0 && p <= 9 {
            "battery-level-0-symbolic"
        } else {
            "battery-missing-symbolic"
        }
    }

    /// Fill the daemon-reported fields from a fresh device read, leaving the
    /// local operation flags as they are.
    pub fn apply_data(&mut self, data: &BtDeviceData)
        ensures
            final(self).name@ == data.name@,
            final(self).alias@ == data.alias@,
            final(self).icon@ == data.icon@,
            final(self).paired == data.paired,
            final(self).trusted == data.trusted,
            final(self).connected == data.connected,
            final(self).battery_percentage == data.battery_percentage,
            final(self).rssi == data.rssi,
            final(self).path == old(self).path,
            final(self).address == old(self).address,
            final(self).connecting == old(self).connecting,
            final(self).disconnecting == old(self).disconnecting,
            final(self).removing == old(self).removing,
    {
        self.name = data.name.clone();
        self.alias = data.alias.clone();
        self.icon = data.icon.clone();
        self.paired = data.paired;
        self.trusted = data.trusted;
        self.connected = data.connected;
        self.battery_percentage = data.battery_percentage;
        self.rssi = data.rssi;
    }
}

/// Signal icon assignment for a reported signal strength.
pub open spec fn rssi_icon_text(rssi: int) -> Seq<char> {
    if -50 <= rssi <= 0 {
        "network-wireless-signal-excellent-symbolic"@
    } else if -70 <= rssi <= -51 {
        "network-wireless-signal-good-symbolic"@
    } else if -80 <= rssi <= -71 {
        "network-wireless-signal-ok-symbolic"@
    } else {
        "network-wireless-signal-weak-symbolic"@
    }
}

/// Device icon assignment for a daemon-reported device class.
pub open spec fn device_icon_text(icon: Seq<char>) -> Seq<char> {
    if icon == "audio-card"@ || icon == "audio-headphones"@ || icon == "audio-headset"@ {
        "audio-headphones-symbolic"@
    } else if icon == "input-keyboard"@ {
        "input-keyboard-symbolic"@
    } else if icon == "input-mouse"@ {
        "input-mouse-symbolic"@
    } else if icon == "input-gaming"@ {
        "input-gaming-symbolic"@
    } else if icon == "phone"@ {
        "phone-symbolic"@
    } else if icon == "computer"@ {
        "computer-symbolic"@
    } else {
        "bluetooth-symbolic"@
    }
}

/// Device type name assignment for a daemon-reported device class.
pub open spec fn device_type_text(icon: Seq<char>) -> Seq<char> {
    if icon == "audio-card"@ {
        "Audio"@
    } else if icon == "audio-headphones"@ {
        "Headphones"@
    } else if icon == "audio-headset"@ {
        "Headset"@
    } else if icon == "input-keyboard"@ {
        "Keyboard"@
    } else if icon == "input-mouse"@ {
        "Mouse"@
    } else if icon == "input-gaming"@ {
        "Gamepad"@
    } else if icon == "phone"@ {
        "Phone"@
    } else if icon == "computer"@ {
        "Computer"@
    } else {
        "Bluetooth Device"@
    }
}

/// Battery icon assignment for a reported percentage.
pub open spec fn battery_icon_text(p: int) -> Seq<char> {
    if 90 <= p <= 100 {
        "battery-level-100-symbolic"@
    } else if 70 <= p <= 89 {
        "battery-level-80-symbolic"@
    } else if 50 <= p <= 69 {
        "battery-level-60-symbolic"@
    } else if 30 <= p <= 49 {
        "battery-level-40-symbolic"@
    } else if 10 <= p <= 29 {
        "battery-level-20-symbolic"@
    } else if 0 <= p <= 9 {
        "battery-level-0-symbolic"@
    } else {
        "battery-missing-symbolic"@
    }
}

/// One client-side step touching a device's operation flags: the three
/// operation requests, and the resolution that a later confirming device
/// event or error performs (both clear the flags conservatively).
pub enum BtOpStep {
    Connect,
    Disconnect,
    Pair,
    Resolve,
}

/// A device's operation flags as a pair: (connecting, disconnecting).  Each
/// request sets its own flag and clears the opposite one, so the two flags
/// never stand together.
pub open spec fn bt_op_step(f: (bool, bool), s: BtOpStep) -> (bool, bool) {
    match s {
        BtOpStep::Connect => (true, false),
        BtOpStep::Disconnect => (false, true),
        BtOpStep::Pair => (true, false),
        BtOpStep::Resolve => (false, false),
    }
}

/// The flags after running `steps`, oldest step first.
pub open spec fn bt_op_run(f: (bool, bool), steps: Seq<BtOpStep>) -> (bool, bool)
    decreases steps.len(),
{
    if steps.len() == 0 {
        f
    } else {
        bt_op_step(bt_op_run(f, steps.drop_last()), steps.last())
    }
}

/// At most one of connecting and disconnecting is set.
pub open spec fn at_most_one_op(f: (bool, bool)) -> bool {
    !(f.0 && f.1)
}

/// For every sequence of connect, disconnect and pair requests on one
/// address, however they interleave with resolutions, at most one of
/// {connecting, disconnecting} is set at every instant: each request clears
/// the opposite flag as it sets its own, and resolution clears both.
pub proof fn lemma_bt_ops_exclusive(steps: Seq<BtOpStep>, i: int)
    requires
        0 <= i <= steps.len(),
    ensures
        at_most_one_op(bt_op_run((false, false), steps.take(i))),
    decreases i,
{
    if i == 0 {
        assert(steps.take(0) =~= Seq::<BtOpStep>::empty());
    } else {
        lemma_bt_ops_exclusive(steps, i - 1);
        assert(steps.take(i).drop_last() =~= steps.take(i - 1));
        assert(steps.take(i).last() == steps[i - 1]);
    }
}

/// The canonical Bluetooth state priority is total and deterministic: for
/// every combination of flags exactly one state results, and it is the one
/// the documented priority list picks.
pub proof fn lemma_bt_state_priority(d: BtDevice)
    ensures
        d.removing ==> d.state_spec() == BtDeviceState::Removing,
        !d.removing && d.disconnecting ==> d.state_spec() == BtDeviceState::Disconnecting,
        !d.removing && !d.disconnecting && d.connecting && !d.paired ==> d.state_spec()
            == BtDeviceState::Pairing,
        !d.removing && !d.disconnecting && d.connecting && d.paired ==> d.state_spec()
            == BtDeviceState::Connecting,
        !d.removing && !d.disconnecting && !d.connecting && d.connected ==> d.state_spec()
            == BtDeviceState::Connected,
        !d.removing && !d.disconnecting && !d.connecting && !d.connected && d.paired
            ==> d.state_spec() == BtDeviceState::Paired,
        !d.removing && !d.disconnecting && !d.connecting && !d.connected && !d.paired
            ==> d.state_spec() == BtDeviceState::Discovered,
{
}

} // verus!
