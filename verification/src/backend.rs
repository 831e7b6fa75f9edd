//! The orchestration core's decisions.
//!
//! The event loop outside the library merges every asynchronous source —
//! commands, property streams, discovery, pairing callbacks, the scan
//! deadline — into one `LoopEvent` per iteration and performs bus calls.
//! Everything it decides is here: `BackendState::handle_event` turns one
//! event into a state change plus a list of `Effect`s to perform, and the
//! outcome functions turn the result of a bus call into the events owed for
//! it.  Nothing here suspends or touches the bus.

use vstd::prelude::*;
use vstd::string::StrSliceExecFns;
use vstd::string::StringExecFns;

use crate::errors::{bt_error_text, format_bt_error, format_iwd_error, wifi_error_text};
use crate::text::{contains_seq, format_passkey, passkey_text, str_contains};
use crate::types::{BackendCommand, BackendEvent, BtDeviceData, BtPairingKind, IwdDeviceInfo};
use crate::LoopAction;

verus! {

/// A character is a hexadecimal digit.
pub open spec fn is_hex_digit(c: char) -> bool {
    ('0' <= c && c <= '9') || ('a' <= c && c <= 'f') || ('A' <= c && c <= 'F')
}

/// The canonical Bluetooth address form the daemon uses: six two-digit
/// hexadecimal groups separated by colons.
pub open spec fn is_bt_address(s: Seq<char>) -> bool {
    &&& s.len() == 17
    &&& forall|i: int|
        0 <= i < 17 ==> (if i % 3 == 2 {
            s[i] == ':'
        } else {
            is_hex_digit(#[trigger] s[i])
        })
}

/// Whether `s` is a canonical Bluetooth device address.
pub fn is_valid_bt_address(s: &str) -> (r: bool)
    ensures
        r == is_bt_address(s@),
{
    let len = s.unicode_len();
    if len != 17 {
        return false;
    }
    let mut i: usize = 0;
    while i < 17
        invariant
            s@.len() == 17,
            i <= 17,
            forall|k: int|
                0 <= k < i ==> (if k % 3 == 2 {
                    s@[k] == ':'
                } else {
                    is_hex_digit(#[trigger] s@[k])
                }),
        decreases 17 - i,
    {
        let c = s.get_char(i);
        if i % 3 == 2 {
            if c != ':' {
                return false;
            }
        } else {
            let ok = ('0' <= c && c <= '9') || ('a' <= c && c <= 'f') || ('A' <= c && c <= 'F');
            if !ok {
                return false;
            }
        }
        i = i + 1;
    }
    true
}

/// How one in-flight wireless connect attempt ended.
pub enum WifiConnectResult {
    /// The network path could not even name a daemon object.
    InvalidPath,
    /// The daemon confirmed the connection.
    Connected,
    /// The daemon refused, with its error string.
    Failed(String),
    /// No answer within the connect deadline.
    TimedOut,
}

/// The events owed when a connect attempt for `path` resolves.  On success
/// the network is connected and now known.  On failure or timeout the daemon
/// was re-queried for the network actually connected — `actual_connected` —
/// and that answer is reported, never an assumed disconnection, so a failed
/// new connection cannot stomp an existing unrelated one; the error string is
/// translated to the fixed taxonomy.
pub fn wifi_connect_outcome(
    path: String,
    result: WifiConnectResult,
    actual_connected: Option<String>,
) -> (events: Vec<BackendEvent>)
    ensures
        events@.len() == 2,
        result is Connected ==> {
            &&& events@[0] matches BackendEvent::WifiConnected(p) && p matches Some(q) && q@
                == path@
            &&& events@[1] matches BackendEvent::WifiNetworkKnown { path: p } && p@ == path@
        },
        result is InvalidPath ==> {
            &&& events@[0] matches BackendEvent::WifiConnected(p) && p is None
            &&& events@[1] matches BackendEvent::WifiError(m) && m@ == "Invalid network path"@
        },
        result matches WifiConnectResult::Failed(e) ==> {
            &&& events@[0] matches BackendEvent::WifiConnected(p) && p == actual_connected
            &&& events@[1] matches BackendEvent::WifiError(m) && m@ == wifi_error_text(e@)
        },
        result is TimedOut ==> {
            &&& events@[0] matches BackendEvent::WifiConnected(p) && p == actual_connected
            &&& events@[1] matches BackendEvent::WifiError(m) && m@ == "Connection timed out"@
        },
{
    let mut events: Vec<BackendEvent> = Vec::new();
    match result {
        WifiConnectResult::Connected => {
            events.push(BackendEvent::WifiConnected(Some(path.clone())));
            events.push(BackendEvent::WifiNetworkKnown { path });
        },
        WifiConnectResult::InvalidPath => {
            events.push(BackendEvent::WifiConnected(None));
            events.push(BackendEvent::WifiError("Invalid network path".to_owned()));
        },
        WifiConnectResult::Failed(e) => {
            events.push(BackendEvent::WifiConnected(actual_connected));
            events.push(BackendEvent::WifiError(format_iwd_error(e.as_str())));
        },
        WifiConnectResult::TimedOut => {
            events.push(BackendEvent::WifiConnected(actual_connected));
            events.push(BackendEvent::WifiError("Connection timed out".to_owned()));
        },
    }
    events
}

/// The events owed when a disconnect call resolves: confirmed disconnection,
/// or the daemon's error behind the fixed prefix.
pub fn wifi_disconnect_outcome(error: Option<String>) -> (events: Vec<BackendEvent>)
    ensures
        events@.len() == 1,
        error is None ==> (events@[0] matches BackendEvent::WifiConnected(p) && p is None),
        error matches Some(e) ==> (events@[0] matches BackendEvent::WifiError(m) && m@
            == "Disconnect: "@ + e@),
{
    let mut events: Vec<BackendEvent> = Vec::new();
    match error {
        None => {
            events.push(BackendEvent::WifiConnected(None));
        },
        Some(e) => {
            let mut msg = String::from_str("Disconnect: ");
            msg.append(e.as_str());
            events.push(BackendEvent::WifiError(msg));
        },
    }
    events
}

/// The events owed when a scan call resolves: nothing on success — the list
/// follows on the scanning property edge — or the daemon's error behind the
/// fixed prefix.
pub fn wifi_scan_outcome(error: Option<String>) -> (events: Vec<BackendEvent>)
    ensures
        error is None ==> events@.len() == 0,
        error matches Some(e) ==> events@.len() == 1 && (events@[0] matches
            BackendEvent::WifiError(m) && m@ == "Scan: "@ + e@),
{
    let mut events: Vec<BackendEvent> = Vec::new();
    if let Some(e) = error {
        let mut msg = String::from_str("Scan: ");
        msg.append(e.as_str());
        events.push(BackendEvent::WifiError(msg));
    }
    events
}

/// The events owed when a wireless power toggle resolves: nothing on success
/// — the power report follows on the property edge — or the daemon's error
/// behind the fixed prefix.
pub fn wifi_set_powered_outcome(error: Option<String>) -> (events: Vec<BackendEvent>)
    ensures
        error is None ==> events@.len() == 0,
        error matches Some(e) ==> events@.len() == 1 && (events@[0] matches
            BackendEvent::WifiError(m) && m@ == "Power: "@ + e@),
{
    let mut events: Vec<BackendEvent> = Vec::new();
    if let Some(e) = error {
        let mut msg = String::from_str("Power: ");
        msg.append(e.as_str());
        events.push(BackendEvent::WifiError(msg));
    }
    events
}

/// The event owed when a connect or pair cannot even obtain the daemon's
/// device handle for an address.
pub fn bt_device_unavailable(error: String) -> (events: Vec<BackendEvent>)
    ensures
        events@.len() == 1,
        events@[0] matches BackendEvent::BtError(m) && m@ == "Device not found: "@ + error@,
{
    let mut events: Vec<BackendEvent> = Vec::new();
    let mut msg = String::from_str("Device not found: ");
    msg.append(error.as_str());
    events.push(BackendEvent::BtError(msg));
    events
}

/// Where a forget flow stopped, if it did.
pub enum WifiForgetStage {
    /// The network path could not name a daemon object.
    InvalidPath,
    /// The network has no saved-network record.
    NotSaved,
    /// The saved-network record could not be reached.
    RecordUnreachable,
    /// The forget call itself failed, with the daemon's error string.
    CallFailed(String),
    /// The record was forgotten.
    Done,
}

/// What a finished forget flow owes: on success a fresh network list, on each
/// failure its fixed message.
pub fn wifi_forget_outcome(stage: WifiForgetStage) -> (effects: Vec<Effect>)
    ensures
        effects@.len() == 1,
        stage is Done ==> effects@[0] is SendNetworks,
        stage is InvalidPath ==> is_emit_wifi_error(effects@[0], "Invalid network path"@),
        stage is NotSaved ==> is_emit_wifi_error(effects@[0], "Network is not saved"@),
        stage is RecordUnreachable ==> is_emit_wifi_error(effects@[0], "Failed to forget network"@),
        stage matches WifiForgetStage::CallFailed(e) ==> is_emit_wifi_error(
            effects@[0],
            "Forget: "@ + e@,
        ),
{
    let mut effects: Vec<Effect> = Vec::new();
    match stage {
        WifiForgetStage::Done => {
            effects.push(Effect::SendNetworks);
        },
        WifiForgetStage::InvalidPath => {
            effects.push(
                Effect::Emit(BackendEvent::WifiError("Invalid network path".to_owned())),
            );
        },
        WifiForgetStage::NotSaved => {
            effects.push(
                Effect::Emit(BackendEvent::WifiError("Network is not saved".to_owned())),
            );
        },
        WifiForgetStage::RecordUnreachable => {
            effects.push(
                Effect::Emit(BackendEvent::WifiError("Failed to forget network".to_owned())),
            );
        },
        WifiForgetStage::CallFailed(e) => {
            let mut msg = String::from_str("Forget: ");
            msg.append(e.as_str());
            effects.push(Effect::Emit(BackendEvent::WifiError(msg)));
        },
    }
    effects
}

/// Whether a device belongs in the initial report sent when the adapter
/// comes up: only devices already paired or connected, not past discovery
/// leftovers.
pub fn initial_device_shown(data: &BtDeviceData) -> (r: bool)
    ensures
        r == (data.paired || data.connected),
{
    data.paired || data.connected
}

/// What a discovered device announcement amounts to.
pub enum BtAddedOutcome {
    /// Anonymous low-energy advertisement noise: no name, and the alias is
    /// just the address again.  Not shown, not tracked.
    Ignore,
    /// A real device: track it and tell the client.
    Announce(BtDeviceData),
}

/// Decide what to do with a device the discovery stream announced, given the
/// device read that followed (`None` when the daemon could not be asked).
pub fn bt_device_added_outcome(data: Option<BtDeviceData>) -> (r: BtAddedOutcome)
    ensures
        data is None ==> r is Ignore,
        data matches Some(d) ==> {
            &&& (d.name@.len() == 0 && d.alias@ == d.address@) <==> r is Ignore
            &&& r matches BtAddedOutcome::Announce(out) ==> out == d
        },
{
    match data {
        None => BtAddedOutcome::Ignore,
        Some(d) => {
            if d.name.as_str().is_empty() && str_eq_strings(&d.alias, &d.address) {
                BtAddedOutcome::Ignore
            } else {
                BtAddedOutcome::Announce(d)
            }
        },
    }
}

/// Whether two strings hold the same characters.
fn str_eq_strings(a: &String, b: &String) -> (r: bool)
    ensures
        r == (a@ == b@),
{
    crate::text::str_eq(a.as_str(), b.as_str())
}

/// What a device-removed announcement amounts to.
pub enum BtRemovedOutcome {
    /// The daemon still reports the device as paired: discovery churn, not a
    /// removal.  Keep tracking it and report it changed.
    StillPaired(BtDeviceData),
    /// Really gone: stop tracking and report the removal.
    Removed(String),
}

/// Decide what to do with a device the daemon claimed to remove.  The claim
/// is not trusted blindly: the daemon emits removals for paired devices
/// during ordinary discovery churn, so the device was re-queried first.  A
/// device that still reads back as paired is reported as changed — with
/// paired still true — never as removed.
pub fn bt_device_removed_outcome(address: String, requeried: Option<BtDeviceData>) -> (r:
    BtRemovedOutcome)
    ensures
        requeried matches Some(d) ==> (d.paired ==> {
            &&& r matches BtRemovedOutcome::StillPaired(out)
            &&& out == d
            &&& out.paired
        }),
        (requeried is None || (requeried matches Some(d) && !d.paired)) ==> {
            &&& r matches BtRemovedOutcome::Removed(a)
            &&& a@ == address@
        },
{
    match requeried {
        Some(d) => {
            if d.paired {
                BtRemovedOutcome::StillPaired(d)
            } else {
                BtRemovedOutcome::Removed(address)
            }
        },
        None => BtRemovedOutcome::Removed(address),
    }
}

/// The events owed when a remove call resolves.  A device the daemon no
/// longer knows counts as removed — the goal was reached; any other error is
/// translated and reported.
pub fn bt_remove_outcome(address: String, error: Option<String>) -> (events: Vec<BackendEvent>)
    ensures
        events@.len() == 1,
        error is None ==> (events@[0] matches BackendEvent::BtDeviceRemoved(a) && a@ == address@),
        error matches Some(e) ==> (contains_seq(e@, "Does Not Exist"@) ==> {
            &&& events@[0] matches BackendEvent::BtDeviceRemoved(a)
            &&& a@ == address@
        }),
        error matches Some(e) ==> (!contains_seq(e@, "Does Not Exist"@) ==> {
            &&& events@[0] matches BackendEvent::BtError(m)
            &&& m@ == bt_error_text(e@)
        }),
{
    let mut events: Vec<BackendEvent> = Vec::new();
    match error {
        None => {
            events.push(BackendEvent::BtDeviceRemoved(address));
        },
        Some(e) => {
            if str_contains(e.as_str(), "Does Not Exist") {
                events.push(BackendEvent::BtDeviceRemoved(address));
            } else {
                events.push(BackendEvent::BtError(format_bt_error(e.as_str())));
            }
        },
    }
    events
}

/// The events owed when a power or discoverable toggle resolves.  On failure
/// the daemon was re-queried for the actual state — `actual` — so the client
/// can roll back its optimistic toggle.
pub fn bt_toggle_outcome(
    discoverable: bool,
    requested: bool,
    error: Option<String>,
    actual: Option<bool>,
) -> (events: Vec<BackendEvent>)
    ensures
        error is None ==> events@.len() == 1 && is_bt_toggle_event(
            events@[0],
            discoverable,
            requested,
        ),
        error matches Some(e) ==> {
            &&& events@[0] matches BackendEvent::BtError(m) && m@ == bt_error_text(e@)
            &&& actual matches Some(a) ==> events@.len() == 2 && is_bt_toggle_event(
                events@[1],
                discoverable,
                a,
            )
            &&& actual is None ==> events@.len() == 1
        },
{
    let mut events: Vec<BackendEvent> = Vec::new();
    match error {
        None => {
            if discoverable {
                events.push(BackendEvent::BtDiscoverable(requested));
            } else {
                events.push(BackendEvent::BtPowered(requested));
            }
        },
        Some(e) => {
            events.push(BackendEvent::BtError(format_bt_error(e.as_str())));
            if let Some(a) = actual {
                if discoverable {
                    events.push(BackendEvent::BtDiscoverable(a));
                } else {
                    events.push(BackendEvent::BtPowered(a));
                }
            }
        },
    }
    events
}

/// The event is the powered or discoverable report with value `v`.
pub open spec fn is_bt_toggle_event(e: BackendEvent, discoverable: bool, v: bool) -> bool {
    if discoverable {
        e matches BackendEvent::BtDiscoverable(d) && d == v
    } else {
        e matches BackendEvent::BtPowered(p) && p == v
    }
}

/// The effect emits a wireless error with exactly this text.
pub open spec fn is_emit_wifi_error(e: Effect, msg: Seq<char>) -> bool {
    e matches Effect::Emit(ev) && ev matches BackendEvent::WifiError(m) && m@ == msg
}

/// The effect emits a Bluetooth error with exactly this text.
pub open spec fn is_emit_bt_error(e: Effect, msg: Seq<char>) -> bool {
    e matches Effect::Emit(ev) && ev matches BackendEvent::BtError(m) && m@ == msg
}

/// The effect emits a discovery on/off report.
pub open spec fn is_emit_bt_discovering(e: Effect, v: bool) -> bool {
    e matches Effect::Emit(ev) && ev matches BackendEvent::BtDiscovering(d) && d == v
}

/// The effect emits a wireless power report.
pub open spec fn is_emit_wifi_powered(e: Effect, v: bool) -> bool {
    e matches Effect::Emit(ev) && ev matches BackendEvent::WifiPowered(p) && p == v
}

/// The effect emits a wireless scanning report.
pub open spec fn is_emit_wifi_scanning(e: Effect, v: bool) -> bool {
    e matches Effect::Emit(ev) && ev matches BackendEvent::WifiScanning(p) && p == v
}

/// The effect emits an empty network list.
pub open spec fn is_emit_wifi_networks_empty(e: Effect) -> bool {
    e matches Effect::Emit(ev) && ev matches BackendEvent::WifiNetworks(v) && v@.len() == 0
}

/// The effect emits a Bluetooth power report.
pub open spec fn is_emit_bt_powered(e: Effect, v: bool) -> bool {
    e matches Effect::Emit(ev) && ev matches BackendEvent::BtPowered(p) && p == v
}

/// The effect emits a discoverable report.
pub open spec fn is_emit_bt_discoverable(e: Effect, v: bool) -> bool {
    e matches Effect::Emit(ev) && ev matches BackendEvent::BtDiscoverable(p) && p == v
}

/// The effect emits the connecting-in-progress notice for this address.
pub open spec fn is_emit_bt_connecting(e: Effect, address: Seq<char>) -> bool {
    e matches Effect::Emit(ev) && ev matches BackendEvent::BtConnecting(a) && a@ == address
}

/// One action the surrounding event loop must perform.  Emissions go to the
/// client's event queue; the rest are bus calls or stream bookkeeping.
pub enum Effect {
    /// Hand this event to the client.
    Emit(BackendEvent),
    /// Ask the station to scan; silently does nothing while the station
    /// sub-interface is absent.
    WifiScanCall,
    /// Start the cancellable connect flow for this network.
    WifiConnectStart { path: String },
    WifiDisconnectCall,
    /// Run the forget flow for this visible network.
    WifiForgetFlow { network_path: String },
    /// Forget this saved-network record directly.
    WifiForgetKnownCall { known_path: String },
    WifiSetPoweredCall { powered: bool },
    /// Abort the in-flight connect attempt, if one is installed.
    WifiCancelPendingConnect,
    /// Poll for the station sub-interface with backoff, then subscribe the
    /// scanning and state property streams.
    SetupStationStreamsRetry,
    /// Drop the scanning and state property streams.
    TeardownStationStreams,
    /// Read the network list and report it.
    SendNetworks,
    /// Read the saved-network list and report it.
    SendKnownNetworks,
    /// Read the connected network and report it.
    SendConnectedStatus,
    /// Tear down and recreate all device-scoped state for the adapter now
    /// named by the state's active device path.
    SwitchAdapter,
    /// Re-enumerate the wireless adapters, then apply the reconciliation.
    ReenumerateWifiDevices { removed_path: Option<String> },
    /// Ask the Bluetooth daemon to start discovery, then apply the result.
    BtStartDiscovery,
    /// Drop the discovery stream.
    BtDropDiscovery,
    /// Rebuild the per-device event streams from the tracked set.
    BtRebuildDeviceStreams,
    /// Read this announced device, then apply the added outcome.
    BtQueryDeviceAdded { address: String },
    /// Re-query this device's paired state, then apply the removed outcome.
    BtQueryDeviceRemoved { address: String },
    /// Read this device afresh and report it changed.
    BtQueryDeviceChanged { address: String },
    BtConnectCall { address: String },
    BtDisconnectCall { address: String },
    /// Pair as an independent unit of work, so the loop stays free to answer
    /// the pairing agent's own callback.
    BtPairSpawn { address: String },
    BtRemoveCall { address: String },
    BtSetAliasCall { address: String, alias: String },
    BtSetTrustedCall { address: String, trusted: bool },
    BtSetPoweredCall { powered: bool },
    BtSetDiscoverableCall { discoverable: bool },
    /// Drop all device tracking and the adapter event stream.
    BtTeardownStreams,
    /// Report adapter state and already-paired devices, tracking them.
    BtSendInitialState,
    /// Start the always-on adapter event stream.
    BtStartAdapterEvents,
    /// Answer the outstanding passphrase request.
    ResolvePassphrase { passphrase: Option<String> },
    /// Answer the outstanding pairing confirmation or authorization.
    ResolvePairingConfirm { accept: bool },
    /// Answer the outstanding PIN request.
    ResolvePin { pin: Option<String> },
    /// Answer the outstanding passkey request.
    ResolvePasskey { passkey: Option<u32> },
}

/// One adapter-level notification from the Bluetooth daemon, whether it came
/// over the discovery stream or the always-on adapter stream.
pub enum BtAdapterEvent {
    /// A device appeared, keyed by its address.
    DeviceAdded(String),
    /// The daemon claims a device is gone.
    DeviceRemoved(String),
    PoweredChanged(bool),
    DiscoverableChanged(bool),
    /// An adapter property the core does not watch.
    Other,
}

/// Which property a per-device notification changed.
pub enum BtDeviceProperty {
    Name,
    Alias,
    Icon,
    Paired,
    Trusted,
    Connected,
    BatteryPercentage,
    Rssi,
    /// A property the core does not watch.
    Other,
}

/// One interactive request from the Bluetooth daemon's pairing agent.  The
/// reply channel stays with the caller; the core only tracks which category
/// has an outstanding reply.
pub enum BtPairingRequest {
    /// Show the passkey and ask the user to approve or reject it.
    ConfirmPasskey { address: String, passkey: u32 },
    /// Ask the user for a PIN string.
    RequestPinCode { address: String },
    /// Ask the user for a numeric passkey.
    RequestPasskey { address: String },
    /// Show a passkey the user should type on the remote device.
    DisplayPasskey { address: String, passkey: u32 },
    /// Show a PIN the user should type on the remote device.
    DisplayPinCode { address: String, pin_code: String },
    /// Plain yes/no authorization.
    RequestAuthorization { address: String },
}

/// One multiplexed input of the event loop, in arrival order.
pub enum LoopEvent {
    WifiPoweredChanged(bool),
    WifiScanningChanged(bool),
    /// The station's connection state string changed.
    WifiStationStateChanged(String),
    /// The station daemon's agent wants a passphrase.
    PassphraseRequest { network_path: String, network_name: String },
    /// The wireless daemon exposed a new device object.
    IwdDeviceAdded { object_path: String },
    /// The wireless daemon removed a device object.
    IwdDeviceRemoved { object_path: String },
    /// An adapter notification from the discovery stream.
    BtDiscoveryEvent(BtAdapterEvent),
    /// An adapter notification from the always-on stream.
    BtAdapterEvent(BtAdapterEvent),
    /// A tracked device's property changed.
    BtDevicePropertyChanged { address: String, property: BtDeviceProperty },
    /// The pairing agent was called.
    BtPairingRequest(BtPairingRequest),
    /// The discovery deadline fired.
    BtScanTimeout,
    /// The client sent a command.
    Command(BackendCommand),
    /// The command queue is gone; shut down.
    CommandChannelClosed,
}

/// The live state the event loop owns: which subsystems exist, which streams
/// are held, which reply slots are outstanding, and the adapter inventory.
pub struct BackendState {
    /// A wireless adapter is selected and owned.
    pub wifi_present: bool,
    /// The Bluetooth daemon answered at startup.
    pub bt_present: bool,
    /// The discovery stream is held.
    pub discovery_active: bool,
    /// The discovery deadline is armed.
    pub scan_deadline_armed: bool,
    /// The station property streams are held.
    pub station_streams_active: bool,
    /// One outstanding passphrase reply channel.
    pub pending_passphrase: bool,
    /// One outstanding pairing confirm/authorize reply channel.
    pub pending_pairing: bool,
    /// One outstanding PIN reply channel.
    pub pending_pin: bool,
    /// One outstanding passkey reply channel.
    pub pending_passkey: bool,
    /// The wireless adapter inventory, as last enumerated.
    pub wifi_device_infos: Vec<IwdDeviceInfo>,
    /// The active wireless adapter.
    pub active_device_path: Option<String>,
}

impl BackendState {
    /// The state's internal consistency: the deadline is armed only while
    /// discovery runs, discovery runs only while the Bluetooth daemon is
    /// there to run it, and an adapter is owned exactly when one is named.
    pub open spec fn wf(&self) -> bool {
        &&& self.scan_deadline_armed ==> self.discovery_active
        &&& self.discovery_active ==> self.bt_present
        &&& self.wifi_present <==> self.active_device_path is Some
    }
}

/// The state after one command, before any bus call resolves.  Stopping a
/// scan or powering Bluetooth off drops discovery and disarms the deadline;
/// switching adapters installs the new one; answering a request clears its
/// reply slot.  Starting a scan changes nothing yet — the state moves only
/// when the daemon answers, in `apply_discovery_started`.
pub open spec fn command_state(s: BackendState, cmd: BackendCommand) -> BackendState {
    match cmd {
        BackendCommand::Shutdown => BackendState {
            discovery_active: false,
            scan_deadline_armed: false,
            ..s
        },
        BackendCommand::PassphraseResponse { .. } => BackendState {
            pending_passphrase: false,
            ..s
        },
        BackendCommand::WifiSwitchAdapter { device_path } => BackendState {
            wifi_present: true,
            active_device_path: Some(device_path),
            station_streams_active: true,
            ..s
        },
        BackendCommand::BtStopScan => BackendState {
            discovery_active: false,
            scan_deadline_armed: false,
            ..s
        },
        BackendCommand::BtSetPowered { powered } => if !powered {
            BackendState { discovery_active: false, scan_deadline_armed: false, ..s }
        } else {
            s
        },
        BackendCommand::BtPairingResponse { .. } => BackendState { pending_pairing: false, ..s },
        BackendCommand::BtPairingPinResponse { .. } => BackendState { pending_pin: false, ..s },
        BackendCommand::BtPairingPasskeyResponse { .. } => BackendState {
            pending_passkey: false,
            ..s
        },
        _ => s,
    }
}

/// The exact effect list one command owes, given the state it arrived in.
pub open spec fn command_effects_ok(s: BackendState, cmd: BackendCommand, effects: Seq<Effect>) -> bool {
    match cmd {
        BackendCommand::Shutdown => {
            if s.wifi_present && s.discovery_active {
                effects.len() == 2 && effects[0] is WifiCancelPendingConnect
                    && effects[1] is BtDropDiscovery
            } else if s.wifi_present {
                effects.len() == 1 && effects[0] is WifiCancelPendingConnect
            } else if s.discovery_active {
                effects.len() == 1 && effects[0] is BtDropDiscovery
            } else {
                effects.len() == 0
            }
        },
        BackendCommand::PassphraseResponse { passphrase } => {
            if s.pending_passphrase {
                effects.len() == 1 && effects[0] == (Effect::ResolvePassphrase { passphrase })
            } else {
                effects.len() == 0
            }
        },
        BackendCommand::WifiScan => {
            if s.wifi_present {
                effects.len() == 1 && effects[0] is WifiScanCall
            } else {
                effects.len() == 0
            }
        },
        BackendCommand::WifiConnect { path } => {
            if s.wifi_present {
                effects.len() == 1 && effects[0] == (Effect::WifiConnectStart { path })
            } else {
                effects.len() == 0
            }
        },
        BackendCommand::WifiDisconnect => {
            if s.wifi_present {
                effects.len() == 1 && effects[0] is WifiDisconnectCall
            } else {
                effects.len() == 0
            }
        },
        BackendCommand::WifiForget { path } => {
            if s.wifi_present {
                effects.len() == 1 && effects[0] == (Effect::WifiForgetFlow { network_path: path })
            } else {
                effects.len() == 0
            }
        },
        BackendCommand::WifiForgetKnown { path } => {
            if s.wifi_present {
                effects.len() == 1 && effects[0] == (Effect::WifiForgetKnownCall {
                    known_path: path,
                })
            } else {
                effects.len() == 0
            }
        },
        BackendCommand::WifiSetPowered { powered } => {
            if s.wifi_present {
                effects.len() == 1 && effects[0] == (Effect::WifiSetPoweredCall { powered })
            } else {
                effects.len() == 0
            }
        },
        BackendCommand::WifiSwitchAdapter { .. } => {
            if s.wifi_present {
                effects.len() == 2 && effects[0] is WifiCancelPendingConnect
                    && effects[1] is SwitchAdapter
            } else {
                effects.len() == 1 && effects[0] is SwitchAdapter
            }
        },
        BackendCommand::BtScan => {
            if !s.discovery_active && s.bt_present {
                effects.len() == 1 && effects[0] is BtStartDiscovery
            } else {
                effects.len() == 0
            }
        },
        BackendCommand::BtStopScan => {
            if s.discovery_active && s.bt_present {
                effects.len() == 3 && effects[0] is BtDropDiscovery && is_emit_bt_discovering(
                    effects[1],
                    false,
                ) && effects[2] is BtRebuildDeviceStreams
            } else if s.discovery_active {
                effects.len() == 1 && effects[0] is BtDropDiscovery
            } else {
                effects.len() == 0
            }
        },
        BackendCommand::BtConnect { path } => {
            if s.bt_present && is_bt_address(path@) {
                &&& effects.len() == 2
                &&& is_emit_bt_connecting(effects[0], path@)
                &&& effects[1] matches Effect::BtConnectCall { address } && address@ == path@
            } else if s.bt_present {
                effects.len() == 1 && is_emit_bt_error(effects[0], "Invalid Bluetooth address"@)
            } else {
                effects.len() == 0
            }
        },
        BackendCommand::BtDisconnect { path } => {
            if s.bt_present && is_bt_address(path@) {
                effects.len() == 1 && effects[0] == (Effect::BtDisconnectCall { address: path })
            } else {
                effects.len() == 0
            }
        },
        BackendCommand::BtPair { path } => {
            if s.bt_present && is_bt_address(path@) {
                &&& effects.len() == 2
                &&& is_emit_bt_connecting(effects[0], path@)
                &&& effects[1] matches Effect::BtPairSpawn { address } && address@ == path@
            } else {
                effects.len() == 0
            }
        },
        BackendCommand::BtRemove { path } => {
            if s.bt_present && is_bt_address(path@) {
                effects.len() == 1 && effects[0] == (Effect::BtRemoveCall { address: path })
            } else {
                effects.len() == 0
            }
        },
        BackendCommand::BtSetAlias { path, alias } => {
            if s.bt_present && is_bt_address(path@) {
                effects.len() == 1 && effects[0] == (Effect::BtSetAliasCall {
                    address: path,
                    alias,
                })
            } else {
                effects.len() == 0
            }
        },
        BackendCommand::BtSetTrusted { path, trusted } => {
            if s.bt_present && is_bt_address(path@) {
                effects.len() == 1 && effects[0] == (Effect::BtSetTrustedCall {
                    address: path,
                    trusted,
                })
            } else {
                effects.len() == 0
            }
        },
        BackendCommand::BtSetPowered { powered } => {
            if powered {
                if s.bt_present {
                    effects.len() == 3 && effects[0] == (Effect::BtSetPoweredCall {
                        powered: true,
                    }) && effects[1] is BtSendInitialState && effects[2] is BtStartAdapterEvents
                } else {
                    effects.len() == 0
                }
            } else {
                if s.discovery_active && s.bt_present {
                    effects.len() == 4 && effects[0] is BtDropDiscovery && is_emit_bt_discovering(
                        effects[1],
                        false,
                    ) && effects[2] is BtTeardownStreams && effects[3] == (
                    Effect::BtSetPoweredCall { powered: false })
                } else if s.discovery_active {
                    effects.len() == 2 && effects[0] is BtDropDiscovery
                        && effects[1] is BtTeardownStreams
                } else if s.bt_present {
                    effects.len() == 2 && effects[0] is BtTeardownStreams && effects[1] == (
                    Effect::BtSetPoweredCall { powered: false })
                } else {
                    effects.len() == 1 && effects[0] is BtTeardownStreams
                }
            }
        },
        BackendCommand::BtSetDiscoverable { discoverable } => {
            if s.bt_present {
                effects.len() == 1 && effects[0] == (Effect::BtSetDiscoverableCall {
                    discoverable,
                })
            } else {
                effects.len() == 0
            }
        },
        BackendCommand::BtPairingResponse { accept } => {
            if s.pending_pairing {
                effects.len() == 1 && effects[0] == (Effect::ResolvePairingConfirm { accept })
            } else {
                effects.len() == 0
            }
        },
        BackendCommand::BtPairingPinResponse { pin } => {
            if s.pending_pin {
                effects.len() == 1 && effects[0] == (Effect::ResolvePin { pin })
            } else {
                effects.len() == 0
            }
        },
        BackendCommand::BtPairingPasskeyResponse { passkey } => {
            if s.pending_passkey {
                effects.len() == 1 && effects[0] == (Effect::ResolvePasskey { passkey })
            } else {
                effects.len() == 0
            }
        },
    }
}

/// The state after one loop event, before any bus call resolves.
pub open spec fn event_state(s: BackendState, event: LoopEvent) -> BackendState {
    match event {
        LoopEvent::BtScanTimeout => BackendState {
            discovery_active: false,
            scan_deadline_armed: false,
            ..s
        },
        LoopEvent::WifiPoweredChanged(p) => if s.wifi_present {
            BackendState { station_streams_active: p, ..s }
        } else {
            s
        },
        LoopEvent::PassphraseRequest { .. } => BackendState { pending_passphrase: true, ..s },
        LoopEvent::BtPairingRequest(req) => match req {
            BtPairingRequest::ConfirmPasskey { passkey, .. } => if passkey <= 999999 {
                BackendState { pending_pairing: true, ..s }
            } else {
                s
            },
            BtPairingRequest::RequestPinCode { .. } => BackendState { pending_pin: true, ..s },
            BtPairingRequest::RequestPasskey { .. } => BackendState { pending_passkey: true, ..s },
            BtPairingRequest::RequestAuthorization { .. } => BackendState {
                pending_pairing: true,
                ..s
            },
            _ => s,
        },
        LoopEvent::Command(cmd) => command_state(s, cmd),
        _ => s,
    }
}

/// The exact effect list one adapter notification owes.
pub open spec fn adapter_event_effects_ok(
    s: BackendState,
    ev: BtAdapterEvent,
    effects: Seq<Effect>,
) -> bool {
    if !s.bt_present {
        effects.len() == 0
    } else {
        match ev {
            BtAdapterEvent::DeviceAdded(address) => effects.len() == 1 && effects[0] == (
            Effect::BtQueryDeviceAdded { address }),
            BtAdapterEvent::DeviceRemoved(address) => effects.len() == 1 && effects[0] == (
            Effect::BtQueryDeviceRemoved { address }),
            BtAdapterEvent::PoweredChanged(p) => effects.len() == 1 && is_emit_bt_powered(
                effects[0],
                p,
            ),
            BtAdapterEvent::DiscoverableChanged(d) => effects.len() == 1 && is_emit_bt_discoverable(
                effects[0],
                d,
            ),
            BtAdapterEvent::Other => effects.len() == 0,
        }
    }
}

/// The exact effect list one pairing-agent request owes: the client learns
/// the interaction kind and the address; a six-digit code is spelled out for
/// display.  A passkey outside the daemon's documented range is a malformed
/// payload: that update is skipped and the loop goes on.
pub open spec fn pairing_request_effects_ok(req: BtPairingRequest, effects: Seq<Effect>) -> bool {
    match req {
        BtPairingRequest::ConfirmPasskey { address, passkey } => {
            if passkey <= 999999 {
                &&& effects.len() == 1
                &&& effects[0] matches Effect::Emit(ev)
                &&& ev matches BackendEvent::BtPairing { kind, address: a }
                &&& a == address
                &&& kind matches BtPairingKind::ConfirmPasskey(c) && c@ == passkey_text(
                    passkey as int,
                )
            } else {
                effects.len() == 0
            }
        },
        BtPairingRequest::RequestPinCode { address } => {
            &&& effects.len() == 1
            &&& effects[0] == (Effect::Emit(
                BackendEvent::BtPairing { kind: BtPairingKind::RequestPin, address },
            ))
        },
        BtPairingRequest::RequestPasskey { address } => {
            &&& effects.len() == 1
            &&& effects[0] == (Effect::Emit(
                BackendEvent::BtPairing { kind: BtPairingKind::RequestPasskey, address },
            ))
        },
        BtPairingRequest::DisplayPasskey { address, passkey } => {
            if passkey <= 999999 {
                &&& effects.len() == 1
                &&& effects[0] matches Effect::Emit(ev)
                &&& ev matches BackendEvent::BtPairing { kind, address: a }
                &&& a == address
                &&& kind matches BtPairingKind::DisplayPasskey(c) && c@ == passkey_text(
                    passkey as int,
                )
            } else {
                effects.len() == 0
            }
        },
        BtPairingRequest::DisplayPinCode { address, pin_code } => {
            &&& effects.len() == 1
            &&& effects[0] == (Effect::Emit(
                BackendEvent::BtPairing {
                    kind: BtPairingKind::DisplayPin(pin_code),
                    address,
                },
            ))
        },
        BtPairingRequest::RequestAuthorization { address } => {
            &&& effects.len() == 1
            &&& effects[0] == (Effect::Emit(
                BackendEvent::BtPairing { kind: BtPairingKind::Authorize, address },
            ))
        },
    }
}

/// The exact effect list one loop event owes, given the state it arrived in.
pub open spec fn event_effects_ok(s: BackendState, event: LoopEvent, effects: Seq<Effect>) -> bool {
    match event {
        LoopEvent::BtScanTimeout => {
            if s.discovery_active && s.bt_present {
                effects.len() == 2 && effects[0] is BtDropDiscovery && is_emit_bt_discovering(
                    effects[1],
                    false,
                )
            } else if s.discovery_active {
                effects.len() == 1 && effects[0] is BtDropDiscovery
            } else {
                effects.len() == 0
            }
        },
        LoopEvent::WifiPoweredChanged(p) => {
            if s.wifi_present && p {
                effects.len() == 4 && is_emit_wifi_powered(effects[0], true)
                    && effects[1] is SetupStationStreamsRetry && effects[2] is SendNetworks
                    && effects[3] is SendKnownNetworks
            } else if s.wifi_present {
                effects.len() == 3 && is_emit_wifi_powered(effects[0], false)
                    && effects[1] is TeardownStationStreams && is_emit_wifi_networks_empty(
                    effects[2],
                )
            } else {
                effects.len() == 1 && is_emit_wifi_powered(effects[0], p)
            }
        },
        LoopEvent::WifiScanningChanged(sc) => {
            if !sc && s.wifi_present {
                effects.len() == 3 && is_emit_wifi_scanning(effects[0], false)
                    && effects[1] is SendNetworks && effects[2] is SendKnownNetworks
            } else {
                effects.len() == 1 && is_emit_wifi_scanning(effects[0], sc)
            }
        },
        LoopEvent::WifiStationStateChanged(_) => {
            if s.wifi_present {
                effects.len() == 1 && effects[0] is SendConnectedStatus
            } else {
                effects.len() == 0
            }
        },
        LoopEvent::PassphraseRequest { network_path, network_name } => {
            effects.len() == 1 && effects[0] == (Effect::Emit(
                BackendEvent::PassphraseRequest { network_path, network_name },
            ))
        },
        LoopEvent::IwdDeviceAdded { .. } => {
            effects.len() == 1 && effects[0] == (Effect::ReenumerateWifiDevices {
                removed_path: None,
            })
        },
        LoopEvent::IwdDeviceRemoved { object_path } => {
            effects.len() == 1 && effects[0] == (Effect::ReenumerateWifiDevices {
                removed_path: Some(object_path),
            })
        },
        LoopEvent::BtDiscoveryEvent(ev) => adapter_event_effects_ok(s, ev, effects),
        LoopEvent::BtAdapterEvent(ev) => adapter_event_effects_ok(s, ev, effects),
        LoopEvent::BtDevicePropertyChanged { address, property } => {
            if s.bt_present && !(property is Other) {
                effects.len() == 1 && effects[0] == (Effect::BtQueryDeviceChanged { address })
            } else {
                effects.len() == 0
            }
        },
        LoopEvent::BtPairingRequest(req) => pairing_request_effects_ok(req, effects),
        LoopEvent::Command(cmd) => command_effects_ok(s, cmd, effects),
        LoopEvent::CommandChannelClosed => effects.len() == 0,
    }
}

/// Two adapter inventories list the same adapters.
pub open spec fn device_infos_match(a: Seq<IwdDeviceInfo>, b: Seq<IwdDeviceInfo>) -> bool {
    &&& a.len() == b.len()
    &&& forall|i: int|
        0 <= i < a.len() ==> {
            &&& (#[trigger] a[i]).device_path@ == b[i].device_path@
            &&& a[i].device_name@ == b[i].device_name@
            &&& a[i].vendor@ == b[i].vendor@
            &&& a[i].model@ == b[i].model@
        }
}

/// Two optional paths spell the same thing.
pub open spec fn opt_path_matches(a: Option<String>, b: Option<String>) -> bool {
    match (a, b) {
        (Option::Some(x), Option::Some(y)) => x@ == y@,
        (Option::None, Option::None) => true,
        _ => false,
    }
}

/// The effect reports this adapter inventory and active selection.
pub open spec fn is_emit_wifi_devices(
    e: Effect,
    infos: Seq<IwdDeviceInfo>,
    active: Option<String>,
) -> bool {
    &&& e matches Effect::Emit(ev)
    &&& ev matches BackendEvent::WifiDevices { devices, active_path }
    &&& device_infos_match(devices@, infos)
    &&& opt_path_matches(active_path, active)
}

/// A field-for-field copy of one adapter record.
fn copy_device_info(d: &IwdDeviceInfo) -> (r: IwdDeviceInfo)
    ensures
        r.device_path@ == d.device_path@,
        r.device_name@ == d.device_name@,
        r.vendor@ == d.vendor@,
        r.model@ == d.model@,
{
    IwdDeviceInfo {
        device_path: d.device_path.clone(),
        device_name: d.device_name.clone(),
        vendor: d.vendor.clone(),
        model: d.model.clone(),
    }
}

/// A copy of the whole adapter inventory.
fn copy_device_infos(v: &Vec<IwdDeviceInfo>) -> (r: Vec<IwdDeviceInfo>)
    ensures
        device_infos_match(r@, v@),
{
    let mut r: Vec<IwdDeviceInfo> = Vec::new();
    let mut i: usize = 0;
    while i < v.len()
        invariant
            i <= v@.len(),
            r@.len() == i,
            forall|k: int|
                0 <= k < i ==> {
                    &&& (#[trigger] r@[k]).device_path@ == v@[k].device_path@
                    &&& r@[k].device_name@ == v@[k].device_name@
                    &&& r@[k].vendor@ == v@[k].vendor@
                    &&& r@[k].model@ == v@[k].model@
                },
        decreases v@.len() - i,
    {
        let c = copy_device_info(&v[i]);
        r.push(c);
        i = i + 1;
    }
    r
}

/// A copy of an optional path.
fn copy_opt_path(p: &Option<String>) -> (r: Option<String>)
    ensures
        opt_path_matches(r, *p),
{
    match p {
        Some(s) => Some(s.clone()),
        None => None,
    }
}

impl BackendState {
    /// Handle one command from the client.  The state moves to
    /// `command_state`, the returned effects are exactly what
    /// `command_effects_ok` prescribes, and the loop breaks only for the
    /// shutdown command.
    pub fn handle_command(&mut self, cmd: BackendCommand) -> (r: (LoopAction, Vec<Effect>))
        requires
            old(self).wf(),
        ensures
            final(self).wf(),
            *final(self) == command_state(*old(self), cmd),
            command_effects_ok(*old(self), cmd, r.1@),
            r.0 is Break <==> cmd is Shutdown,
    {
        let mut effects: Vec<Effect> = Vec::new();
        match cmd {
            BackendCommand::Shutdown => {
                if self.wifi_present {
                    effects.push(Effect::WifiCancelPendingConnect);
                }
                if self.discovery_active {
                    effects.push(Effect::BtDropDiscovery);
                }
                self.discovery_active = false;
                self.scan_deadline_armed = false;
                return (LoopAction::Break, effects);
            },
            BackendCommand::PassphraseResponse { passphrase } => {
                if self.pending_passphrase {
                    self.pending_passphrase = false;
                    effects.push(Effect::ResolvePassphrase { passphrase });
                }
            },
            BackendCommand::WifiScan => {
                if self.wifi_present {
                    effects.push(Effect::WifiScanCall);
                }
            },
            BackendCommand::WifiConnect { path } => {
                if self.wifi_present {
                    effects.push(Effect::WifiConnectStart { path });
                }
            },
            BackendCommand::WifiDisconnect => {
                if self.wifi_present {
                    effects.push(Effect::WifiDisconnectCall);
                }
            },
            BackendCommand::WifiForget { path } => {
                if self.wifi_present {
                    effects.push(Effect::WifiForgetFlow { network_path: path });
                }
            },
            BackendCommand::WifiForgetKnown { path } => {
                if self.wifi_present {
                    effects.push(Effect::WifiForgetKnownCall { known_path: path });
                }
            },
            BackendCommand::WifiSetPowered { powered } => {
                if self.wifi_present {
                    effects.push(Effect::WifiSetPoweredCall { powered });
                }
            },
            BackendCommand::WifiSwitchAdapter { device_path } => {
                if self.wifi_present {
                    effects.push(Effect::WifiCancelPendingConnect);
                }
                self.wifi_present = true;
                self.active_device_path = Some(device_path);
                self.station_streams_active = true;
                effects.push(Effect::SwitchAdapter);
            },
            BackendCommand::BtScan => {
                if !self.discovery_active && self.bt_present {
                    effects.push(Effect::BtStartDiscovery);
                }
            },
            BackendCommand::BtStopScan => {
                if self.discovery_active {
                    effects.push(Effect::BtDropDiscovery);
                    if self.bt_present {
                        effects.push(Effect::Emit(BackendEvent::BtDiscovering(false)));
                        effects.push(Effect::BtRebuildDeviceStreams);
                    }
                }
                self.discovery_active = false;
                self.scan_deadline_armed = false;
            },
            BackendCommand::BtConnect { path } => {
                if self.bt_present {
                    if is_valid_bt_address(path.as_str()) {
                        let shown = path.clone();
                        effects.push(Effect::Emit(BackendEvent::BtConnecting(shown)));
                        effects.push(Effect::BtConnectCall { address: path });
                    } else {
                        effects.push(
                            Effect::Emit(
                                BackendEvent::BtError("Invalid Bluetooth address".to_owned()),
                            ),
                        );
                    }
                }
            },
            BackendCommand::BtDisconnect { path } => {
                if self.bt_present && is_valid_bt_address(path.as_str()) {
                    effects.push(Effect::BtDisconnectCall { address: path });
                }
            },
            BackendCommand::BtPair { path } => {
                if self.bt_present && is_valid_bt_address(path.as_str()) {
                    let shown = path.clone();
                    effects.push(Effect::Emit(BackendEvent::BtConnecting(shown)));
                    effects.push(Effect::BtPairSpawn { address: path });
                }
            },
            BackendCommand::BtRemove { path } => {
                if self.bt_present && is_valid_bt_address(path.as_str()) {
                    effects.push(Effect::BtRemoveCall { address: path });
                }
            },
            BackendCommand::BtSetAlias { path, alias } => {
                if self.bt_present && is_valid_bt_address(path.as_str()) {
                    effects.push(Effect::BtSetAliasCall { address: path, alias });
                }
            },
            BackendCommand::BtSetTrusted { path, trusted } => {
                if self.bt_present && is_valid_bt_address(path.as_str()) {
                    effects.push(Effect::BtSetTrustedCall { address: path, trusted });
                }
            },
            BackendCommand::BtSetPowered { powered } => {
                if !powered {
                    if self.discovery_active {
                        effects.push(Effect::BtDropDiscovery);
                        if self.bt_present {
                            effects.push(Effect::Emit(BackendEvent::BtDiscovering(false)));
                        }
                    }
                    self.discovery_active = false;
                    self.scan_deadline_armed = false;
                    effects.push(Effect::BtTeardownStreams);
                    if self.bt_present {
                        effects.push(Effect::BtSetPoweredCall { powered: false });
                    }
                } else {
                    if self.bt_present {
                        effects.push(Effect::BtSetPoweredCall { powered: true });
                        effects.push(Effect::BtSendInitialState);
                        effects.push(Effect::BtStartAdapterEvents);
                    }
                }
            },
            BackendCommand::BtSetDiscoverable { discoverable } => {
                if self.bt_present {
                    effects.push(Effect::BtSetDiscoverableCall { discoverable });
                }
            },
            BackendCommand::BtPairingResponse { accept } => {
                if self.pending_pairing {
                    self.pending_pairing = false;
                    effects.push(Effect::ResolvePairingConfirm { accept });
                }
            },
            BackendCommand::BtPairingPinResponse { pin } => {
                if self.pending_pin {
                    self.pending_pin = false;
                    effects.push(Effect::ResolvePin { pin });
                }
            },
            BackendCommand::BtPairingPasskeyResponse { passkey } => {
                if self.pending_passkey {
                    self.pending_passkey = false;
                    effects.push(Effect::ResolvePasskey { passkey });
                }
            },
        }
        (LoopAction::Continue, effects)
    }

    /// Handle one adapter notification: real device announcements and
    /// removals come back as query effects whose results feed
    /// `bt_device_added_outcome` and `bt_device_removed_outcome`; watched
    /// property reports are forwarded.
    fn handle_adapter_event(&self, ev: BtAdapterEvent) -> (effects: Vec<Effect>)
        ensures
            adapter_event_effects_ok(*self, ev, effects@),
    {
        let mut effects: Vec<Effect> = Vec::new();
        if self.bt_present {
            match ev {
                BtAdapterEvent::DeviceAdded(address) => {
                    effects.push(Effect::BtQueryDeviceAdded { address });
                },
                BtAdapterEvent::DeviceRemoved(address) => {
                    effects.push(Effect::BtQueryDeviceRemoved { address });
                },
                BtAdapterEvent::PoweredChanged(p) => {
                    effects.push(Effect::Emit(BackendEvent::BtPowered(p)));
                },
                BtAdapterEvent::DiscoverableChanged(d) => {
                    effects.push(Effect::Emit(BackendEvent::BtDiscoverable(d)));
                },
                BtAdapterEvent::Other => {},
            }
        }
        effects
    }

    /// Handle one loop event.  The state moves to `event_state`, the returned
    /// effects are exactly what `event_effects_ok` prescribes, and the loop
    /// breaks only on shutdown or a closed command queue.  In particular the
    /// discovery deadline firing drops the stream and owes exactly one
    /// discovery-stopped report, and both disarm, so the report cannot recur.
    pub fn handle_event(&mut self, event: LoopEvent) -> (r: (LoopAction, Vec<Effect>))
        requires
            old(self).wf(),
        ensures
            final(self).wf(),
            *final(self) == event_state(*old(self), event),
            event_effects_ok(*old(self), event, r.1@),
            r.0 is Break <==> (event is CommandChannelClosed || (event matches LoopEvent::Command(
                cmd,
            ) && cmd is Shutdown)),
    {
        let mut effects: Vec<Effect> = Vec::new();
        match event {
            LoopEvent::BtScanTimeout => {
                if self.discovery_active {
                    effects.push(Effect::BtDropDiscovery);
                    if self.bt_present {
                        effects.push(Effect::Emit(BackendEvent::BtDiscovering(false)));
                    }
                }
                self.discovery_active = false;
                self.scan_deadline_armed = false;
            },
            LoopEvent::WifiPoweredChanged(p) => {
                effects.push(Effect::Emit(BackendEvent::WifiPowered(p)));
                if self.wifi_present {
                    if p {
                        effects.push(Effect::SetupStationStreamsRetry);
                        effects.push(Effect::SendNetworks);
                        effects.push(Effect::SendKnownNetworks);
                    } else {
                        effects.push(Effect::TeardownStationStreams);
                        effects.push(Effect::Emit(BackendEvent::WifiNetworks(Vec::new())));
                    }
                    self.station_streams_active = p;
                }
            },
            LoopEvent::WifiScanningChanged(sc) => {
                effects.push(Effect::Emit(BackendEvent::WifiScanning(sc)));
                if !sc && self.wifi_present {
                    effects.push(Effect::SendNetworks);
                    effects.push(Effect::SendKnownNetworks);
                }
            },
            LoopEvent::WifiStationStateChanged(_) => {
                if self.wifi_present {
                    effects.push(Effect::SendConnectedStatus);
                }
            },
            LoopEvent::PassphraseRequest { network_path, network_name } => {
                self.pending_passphrase = true;
                effects.push(
                    Effect::Emit(BackendEvent::PassphraseRequest { network_path, network_name }),
                );
            },
            LoopEvent::IwdDeviceAdded { object_path: _ } => {
                effects.push(Effect::ReenumerateWifiDevices { removed_path: None });
            },
            LoopEvent::IwdDeviceRemoved { object_path } => {
                effects.push(Effect::ReenumerateWifiDevices { removed_path: Some(object_path) });
            },
            LoopEvent::BtDiscoveryEvent(ev) => {
                let more = self.handle_adapter_event(ev);
                return (LoopAction::Continue, more);
            },
            LoopEvent::BtAdapterEvent(ev) => {
                let more = self.handle_adapter_event(ev);
                return (LoopAction::Continue, more);
            },
            LoopEvent::BtDevicePropertyChanged { address, property } => {
                let watched = match property {
                    BtDeviceProperty::Other => false,
                    _ => true,
                };
                if self.bt_present && watched {
                    effects.push(Effect::BtQueryDeviceChanged { address });
                }
            },
            LoopEvent::BtPairingRequest(req) => {
                match req {
                    BtPairingRequest::ConfirmPasskey { address, passkey } => {
                        if passkey <= 999999 {
                            self.pending_pairing = true;
                            let code = format_passkey(passkey);
                            effects.push(
                                Effect::Emit(
                                    BackendEvent::BtPairing {
                                        kind: BtPairingKind::ConfirmPasskey(code),
                                        address,
                                    },
                                ),
                            );
                        }
                    },
                    BtPairingRequest::RequestPinCode { address } => {
                        self.pending_pin = true;
                        effects.push(
                            Effect::Emit(
                                BackendEvent::BtPairing { kind: BtPairingKind::RequestPin, address },
                            ),
                        );
                    },
                    BtPairingRequest::RequestPasskey { address } => {
                        self.pending_passkey = true;
                        effects.push(
                            Effect::Emit(
                                BackendEvent::BtPairing {
                                    kind: BtPairingKind::RequestPasskey,
                                    address,
                                },
                            ),
                        );
                    },
                    BtPairingRequest::DisplayPasskey { address, passkey } => {
                        if passkey <= 999999 {
                            let code = format_passkey(passkey);
                            effects.push(
                                Effect::Emit(
                                    BackendEvent::BtPairing {
                                        kind: BtPairingKind::DisplayPasskey(code),
                                        address,
                                    },
                                ),
                            );
                        }
                    },
                    BtPairingRequest::DisplayPinCode { address, pin_code } => {
                        effects.push(
                            Effect::Emit(
                                BackendEvent::BtPairing {
                                    kind: BtPairingKind::DisplayPin(pin_code),
                                    address,
                                },
                            ),
                        );
                    },
                    BtPairingRequest::RequestAuthorization { address } => {
                        self.pending_pairing = true;
                        effects.push(
                            Effect::Emit(
                                BackendEvent::BtPairing { kind: BtPairingKind::Authorize, address },
                            ),
                        );
                    },
                }
            },
            LoopEvent::Command(cmd) => {
                return self.handle_command(cmd);
            },
            LoopEvent::CommandChannelClosed => {
                return (LoopAction::Break, effects);
            },
        }
        (LoopAction::Continue, effects)
    }

    /// Fold in the answer to a discovery start: on success the stream is held
    /// and the 30-second deadline armed, and the client learns discovery is
    /// on; on failure nothing is held and the client gets the translated
    /// error.
    pub fn apply_discovery_started(&mut self, error: Option<String>) -> (effects: Vec<Effect>)
        requires
            old(self).wf(),
            old(self).bt_present,
        ensures
            final(self).wf(),
            error is None ==> {
                &&& *final(self) == (BackendState {
                    discovery_active: true,
                    scan_deadline_armed: true,
                    ..*old(self)
                })
                &&& effects@.len() == 1
                &&& is_emit_bt_discovering(effects@[0], true)
            },
            error matches Some(e) ==> {
                &&& *final(self) == *old(self)
                &&& effects@.len() == 1
                &&& is_emit_bt_error(effects@[0], bt_error_text(e@))
            },
    {
        let mut effects: Vec<Effect> = Vec::new();
        match error {
            None => {
                self.discovery_active = true;
                self.scan_deadline_armed = true;
                effects.push(Effect::Emit(BackendEvent::BtDiscovering(true)));
            },
            Some(e) => {
                effects.push(Effect::Emit(BackendEvent::BtError(format_bt_error(e.as_str()))));
            },
        }
        effects
    }

    /// Fold in a fresh adapter enumeration after a hot-plug notification.
    /// When the removed device was the active one, the next available adapter
    /// — first discovered wins — takes its place and all device-scoped state
    /// is rebuilt; when none remain, wireless state is cleared and reported
    /// off.  Either way the client learns the new inventory and selection.
    pub fn apply_wifi_reenumeration(
        &mut self,
        infos: Vec<IwdDeviceInfo>,
        removed_path: Option<&str>,
    ) -> (effects: Vec<Effect>)
        requires
            old(self).wf(),
        ensures
            final(self).wf(),
            device_infos_match(final(self).wifi_device_infos@, infos@),
            ({
                let active_removed = removed_path matches Some(rp) && old(self).wifi_present && (
                old(self).active_device_path matches Some(a) && a@ == rp@);
                if !active_removed {
                    &&& final(self).active_device_path == old(self).active_device_path
                    &&& final(self).wifi_present == old(self).wifi_present
                    &&& effects@.len() == 1
                    &&& is_emit_wifi_devices(
                        effects@[0],
                        infos@,
                        final(self).active_device_path,
                    )
                } else if infos@.len() > 0 {
                    &&& final(self).wifi_present
                    &&& final(self).active_device_path matches Some(p) && p@
                        == infos@[0].device_path@
                    &&& final(self).station_streams_active
                    &&& effects@.len() == 2
                    &&& effects@[0] is SwitchAdapter
                    &&& is_emit_wifi_devices(
                        effects@[1],
                        infos@,
                        final(self).active_device_path,
                    )
                } else {
                    &&& !final(self).wifi_present
                    &&& final(self).active_device_path is None
                    &&& !final(self).station_streams_active
                    &&& effects@.len() == 4
                    &&& effects@[0] is TeardownStationStreams
                    &&& is_emit_wifi_powered(effects@[1], false)
                    &&& is_emit_wifi_networks_empty(effects@[2])
                    &&& is_emit_wifi_devices(effects@[3], infos@, None)
                }
            }),
    {
        let mut effects: Vec<Effect> = Vec::new();
        let active_removed = match (removed_path, &self.active_device_path) {
            (Some(rp), Some(a)) => self.wifi_present && crate::text::str_eq(a.as_str(), rp),
            _ => false,
        };
        if active_removed {
            if infos.len() > 0 {
                self.active_device_path = Some(infos[0].device_path.clone());
                self.wifi_present = true;
                self.station_streams_active = true;
                effects.push(Effect::SwitchAdapter);
            } else {
                self.active_device_path = None;
                self.wifi_present = false;
                self.station_streams_active = false;
                effects.push(Effect::TeardownStationStreams);
                effects.push(Effect::Emit(BackendEvent::WifiPowered(false)));
                effects.push(Effect::Emit(BackendEvent::WifiNetworks(Vec::new())));
            }
        }
        let shown = copy_device_infos(&infos);
        let shown_active = copy_opt_path(&self.active_device_path);
        self.wifi_device_infos = infos;
        effects.push(
            Effect::Emit(BackendEvent::WifiDevices { devices: shown, active_path: shown_active }),
        );
        effects
    }
}

/// Pick the adapter to start with: prefer one that is already connected,
/// fall back to the first discovered, none when none exist.
pub fn select_initial_adapter(infos: &Vec<IwdDeviceInfo>, connected: &Vec<bool>) -> (r: Option<
    usize,
>)
    requires
        infos@.len() == connected@.len(),
    ensures
        r is None <==> infos@.len() == 0,
        r matches Some(i) ==> i < infos@.len(),
        (exists|k: int| 0 <= k < connected@.len() && connected@[k]) ==> (r matches Some(i)
            && connected@[i as int] && forall|k: int| 0 <= k < i ==> !connected@[k]),
        (forall|k: int| 0 <= k < connected@.len() ==> !connected@[k]) && infos@.len() > 0 ==> r
            == Some(0usize),
{
    let mut i: usize = 0;
    while i < connected.len()
        invariant
            infos@.len() == connected@.len(),
            i <= connected@.len(),
            forall|k: int| 0 <= k < i ==> !connected@[k],
        decreases connected@.len() - i,
    {
        if connected[i] {
            return Some(i);
        }
        i = i + 1;
    }
    if infos.len() > 0 {
        Some(0)
    } else {
        None
    }
}

} // verus!
