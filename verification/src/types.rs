//! Plain data carried between the user interface and the orchestration core.

use vstd::prelude::*;

verus! {

/// Identity of one wireless adapter as enumerated from the station daemon.
/// Immutable once discovered; the whole inventory is replaced on hot-plug.
#[derive(Clone)]
pub struct IwdDeviceInfo {
    pub device_path: String,
    pub device_name: String,
    pub vendor: String,
    pub model: String,
}

/// One wireless network as reported by a scan snapshot.
#[derive(Clone)]
pub struct WifiNetworkData {
    pub path: String,
    pub name: String,
    pub network_type: String,
    pub signal_strength: i16,
    pub connected: bool,
    pub known: bool,
}

/// One saved network, independent of current radio visibility.
#[derive(Clone)]
pub struct KnownNetworkData {
    pub path: String,
    pub name: String,
    pub network_type: String,
}

/// One Bluetooth device as read from the Bluetooth daemon.
#[derive(Clone)]
pub struct BtDeviceData {
    pub address: String,
    pub name: String,
    pub alias: String,
    pub icon: String,
    pub paired: bool,
    pub trusted: bool,
    pub connected: bool,
    /// Battery percentage; -1 when the daemon reports none.
    pub battery_percentage: i32,
    /// Received signal strength; `i16::MIN` when the daemon reports none.
    pub rssi: i16,
}

/// Kind of Bluetooth pairing interaction requested by the daemon's agent.
#[derive(Clone)]
pub enum BtPairingKind {
    /// Show a six-digit code; the user approves or rejects.
    ConfirmPasskey(String),
    /// The user supplies a PIN string.
    RequestPin,
    /// The user supplies a numeric passkey.
    RequestPasskey,
    /// Show a passkey the user should type on the remote device; no reply.
    DisplayPasskey(String),
    /// Show a PIN the user should type on the remote device; no reply.
    DisplayPin(String),
    /// Plain yes/no authorization.
    Authorize,
}

/// Commands sent from the user interface to the core.
#[derive(Clone)]
pub enum BackendCommand {
    Shutdown,
    WifiScan,
    WifiConnect { path: String },
    WifiDisconnect,
    WifiForget { path: String },
    WifiForgetKnown { path: String },
    WifiSetPowered { powered: bool },
    WifiSwitchAdapter { device_path: String },
    /// Answer to a passphrase request; `None` means the user cancelled.
    PassphraseResponse { passphrase: Option<String> },
    BtScan,
    BtStopScan,
    BtConnect { path: String },
    BtDisconnect { path: String },
    BtPair { path: String },
    BtRemove { path: String },
    BtSetAlias { path: String, alias: String },
    BtSetTrusted { path: String, trusted: bool },
    BtSetPowered { powered: bool },
    BtSetDiscoverable { discoverable: bool },
    /// Answer to a pairing confirmation or authorization.
    BtPairingResponse { accept: bool },
    /// Answer with a PIN code; `None` means the user cancelled.
    BtPairingPinResponse { pin: Option<String> },
    /// Answer with a numeric passkey; `None` means the user cancelled.
    BtPairingPasskeyResponse { passkey: Option<u32> },
}

/// Events sent from the core to the user interface.
#[derive(Clone)]
pub enum BackendEvent {
    /// Whether the wireless subsystem is available at all.
    WifiAvailable(bool),
    /// Whether the Bluetooth subsystem is available at all.
    BtAvailable(bool),
    /// Adapter inventory plus which adapter is active.
    WifiDevices { devices: Vec<IwdDeviceInfo>, active_path: Option<String> },
    WifiPowered(bool),
    WifiScanning(bool),
    WifiNetworks(Vec<WifiNetworkData>),
    /// Path of the connected network, or `None`.
    WifiConnected(Option<String>),
    /// Path of the network a connect was started for.
    WifiConnecting(String),
    /// A network became saved.
    WifiNetworkKnown { path: String },
    /// All saved networks known to the station daemon.
    WifiKnownNetworks(Vec<KnownNetworkData>),
    /// The station daemon requests a passphrase for a network.
    PassphraseRequest { network_path: String, network_name: String },
    /// A captive portal was detected after connecting.
    CaptivePortal { url: String },
    BtPowered(bool),
    BtDiscovering(bool),
    BtDiscoverable(bool),
    /// Address of the device a connect or pair was started for.
    BtConnecting(String),
    BtDeviceAdded(BtDeviceData),
    BtDeviceChanged(BtDeviceData),
    /// Address of a removed device.
    BtDeviceRemoved(String),
    /// The Bluetooth daemon requests a pairing interaction.
    BtPairing { kind: BtPairingKind, address: String },
    BtError(String),
    WifiError(String),
}

} // verus!
