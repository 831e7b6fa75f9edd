//! The client-side model: list reconciliation, optimistic flags, and event
//! folding.

use wlcontrol::store::{UiSignal, WlcontrolManager};
use wlcontrol::types::{BackendCommand, BackendEvent, BtDeviceData, KnownNetworkData,
    WifiNetworkData};

fn net_data(path: &str, name: &str, ty: &str, connected: bool, known: bool) -> WifiNetworkData {
    WifiNetworkData {
        path: path.to_string(),
        name: name.to_string(),
        network_type: ty.to_string(),
        signal_strength: -5000,
        connected,
        known,
    }
}

fn known_data(path: &str, name: &str, ty: &str) -> KnownNetworkData {
    KnownNetworkData { path: path.to_string(), name: name.to_string(), network_type: ty.to_string() }
}

fn dev_data(address: &str, name: &str, paired: bool, connected: bool) -> BtDeviceData {
    BtDeviceData {
        address: address.to_string(),
        name: name.to_string(),
        alias: name.to_string(),
        icon: "bluetooth".to_string(),
        paired,
        trusted: false,
        connected,
        battery_percentage: -1,
        rssi: i16::MIN,
    }
}

#[test]
fn scan_snapshot_preserves_flags_by_key() {
    let mut m = WlcontrolManager::new();
    m.handle_event(BackendEvent::WifiNetworks(vec![
        net_data("/net/1", "alpha", "psk", false, false),
        net_data("/net/2", "beta", "psk", false, true),
    ]));
    // A connect is started on /net/1.
    m.handle_event(BackendEvent::WifiConnecting("/net/1".to_string()));
    assert!(m.wifi_networks[0].connecting);
    // The next snapshot reorders the entries; the flag follows the key.
    m.handle_event(BackendEvent::WifiNetworks(vec![
        net_data("/net/2", "beta", "psk", false, true),
        net_data("/net/1", "alpha", "psk", false, false),
        net_data("/net/3", "gamma", "open", false, false),
    ]));
    assert_eq!(m.wifi_networks.len(), 3);
    assert!(!m.wifi_networks[0].connecting);
    assert!(m.wifi_networks[1].connecting);
    assert!(!m.wifi_networks[2].connecting);
}

#[test]
fn known_networks_suppressed_when_visible() {
    let mut m = WlcontrolManager::new();
    m.handle_event(BackendEvent::WifiNetworks(vec![
        net_data("/net/1", "alpha", "psk", false, true),
    ]));
    m.handle_event(BackendEvent::WifiKnownNetworks(vec![
        known_data("/known/alpha", "alpha", "psk"),
        known_data("/known/far", "faraway", "psk"),
    ]));
    // The visible "alpha"/psk suppresses its saved twin; only the out-of-range
    // network is synthesized, as saved and offline.
    assert_eq!(m.saved_networks.len(), 1);
    assert_eq!(m.saved_networks[0].name, "faraway");
    assert!(m.saved_networks[0].known);
    assert!(m.saved_networks[0].offline);
    // Same name under a different security type is not a duplicate.
    m.handle_event(BackendEvent::WifiKnownNetworks(vec![
        known_data("/known/alpha8021x", "alpha", "8021x"),
    ]));
    assert_eq!(m.saved_networks.len(), 1);
    assert_eq!(m.saved_networks[0].network_type, "8021x");
}

#[test]
fn no_duplicates_after_scan_refresh_round_trip() {
    let mut m = WlcontrolManager::new();
    m.handle_event(BackendEvent::WifiKnownNetworks(vec![
        known_data("/known/a", "alpha", "psk"),
        known_data("/known/b", "beta", "psk"),
    ]));
    // Nothing visible yet: both appear as saved-offline.
    assert_eq!(m.saved_networks.len(), 2);
    // "beta" comes into range: its saved entry must disappear.
    m.handle_event(BackendEvent::WifiNetworks(vec![
        net_data("/net/b", "beta", "psk", false, true),
    ]));
    assert_eq!(m.saved_networks.len(), 1);
    assert_eq!(m.saved_networks[0].name, "alpha");
    for saved in &m.saved_networks {
        for visible in &m.wifi_networks {
            assert!(!(saved.name == visible.name && saved.network_type == visible.network_type));
        }
    }
    // "beta" goes out of range again: its saved entry returns.
    m.handle_event(BackendEvent::WifiNetworks(vec![]));
    assert_eq!(m.saved_networks.len(), 2);
}

#[test]
fn connected_event_clears_operations_and_marks_connection() {
    let mut m = WlcontrolManager::new();
    m.handle_event(BackendEvent::WifiNetworks(vec![
        net_data("/net/1", "alpha", "psk", false, false),
        net_data("/net/2", "beta", "psk", true, true),
    ]));
    m.handle_event(BackendEvent::WifiConnecting("/net/1".to_string()));
    let signals = m.handle_event(BackendEvent::WifiConnected(Some("/net/1".to_string())));
    assert!(matches!(signals[..], [UiSignal::WifiNetworkUpdated]));
    assert!(m.wifi_networks[0].connected);
    assert!(!m.wifi_networks[0].connecting);
    assert!(!m.wifi_networks[1].connected);
}

#[test]
fn wifi_error_resets_operation_flags() {
    let mut m = WlcontrolManager::new();
    m.handle_event(BackendEvent::WifiNetworks(vec![
        net_data("/net/1", "alpha", "psk", false, false),
    ]));
    let _ = m.request_wifi_forget("/net/1");
    assert!(m.wifi_networks[0].forgetting);
    let signals = m.handle_event(BackendEvent::WifiError("Forget: busy".to_string()));
    assert!(!m.wifi_networks[0].forgetting);
    assert_eq!(signals.len(), 2);
    assert!(matches!(&signals[0], UiSignal::WifiNetworkUpdated));
    assert!(matches!(&signals[1], UiSignal::ErrorNotice { message } if message == "Forget: busy"));
}

#[test]
fn bt_requests_set_one_operation_flag_each() {
    let mut m = WlcontrolManager::new();
    m.handle_event(BackendEvent::BtDeviceAdded(dev_data("AA:BB:CC:DD:EE:01", "buds", true, false)));
    let cmd = m.request_bt_connect("AA:BB:CC:DD:EE:01");
    assert!(matches!(cmd, BackendCommand::BtConnect { .. }));
    assert!(m.bt_devices[0].connecting);
    assert!(!m.bt_devices[0].disconnecting);
    // The confirming device event resolves the operation.
    let _ = m.handle_event(BackendEvent::BtDeviceChanged(dev_data(
        "AA:BB:CC:DD:EE:01",
        "buds",
        true,
        true,
    )));
    assert!(!m.bt_devices[0].connecting);
    assert!(m.bt_devices[0].connected);
    // Now a disconnect request sets only the disconnecting flag.
    let _ = m.request_bt_disconnect("AA:BB:CC:DD:EE:01");
    assert!(m.bt_devices[0].disconnecting);
    assert!(!m.bt_devices[0].connecting);
}

#[test]
fn cross_request_never_leaves_both_operation_flags() {
    let mut m = WlcontrolManager::new();
    m.handle_event(BackendEvent::BtDeviceAdded(dev_data("AA:BB:CC:DD:EE:05", "buds", true, true)));
    // A connect request straight after a disconnect request, with nothing
    // confirmed in between: the newer request's flag replaces the older one.
    let _ = m.request_bt_disconnect("AA:BB:CC:DD:EE:05");
    assert!(m.bt_devices[0].disconnecting && !m.bt_devices[0].connecting);
    let _ = m.request_bt_connect("AA:BB:CC:DD:EE:05");
    assert!(m.bt_devices[0].connecting && !m.bt_devices[0].disconnecting);
    let _ = m.request_bt_disconnect("AA:BB:CC:DD:EE:05");
    assert!(m.bt_devices[0].disconnecting && !m.bt_devices[0].connecting);
    let _ = m.request_bt_pair("AA:BB:CC:DD:EE:05");
    assert!(m.bt_devices[0].connecting && !m.bt_devices[0].disconnecting);
}

#[test]
fn saved_networks_keep_snapshot_order_without_duplicates() {
    let mut m = WlcontrolManager::new();
    m.handle_event(BackendEvent::WifiKnownNetworks(vec![
        known_data("/known/c", "cherry", "psk"),
        known_data("/known/a", "apple", "psk"),
        known_data("/known/b", "briar", "8021x"),
    ]));
    let names: Vec<&str> = m.saved_networks.iter().map(|n| n.name.as_str()).collect();
    assert_eq!(names, ["cherry", "apple", "briar"]);
    // A visible twin suppresses exactly its record, keeping the rest in order.
    m.handle_event(BackendEvent::WifiNetworks(vec![
        net_data("/net/a", "apple", "psk", false, true),
    ]));
    let names: Vec<&str> = m.saved_networks.iter().map(|n| n.name.as_str()).collect();
    assert_eq!(names, ["cherry", "briar"]);
}

#[test]
fn bt_device_changed_keeps_removing_flag() {
    let mut m = WlcontrolManager::new();
    m.handle_event(BackendEvent::BtDeviceAdded(dev_data("AA:BB:CC:DD:EE:02", "kbd", true, true)));
    let _ = m.request_bt_remove("AA:BB:CC:DD:EE:02");
    assert!(m.bt_devices[0].removing);
    let _ = m.handle_event(BackendEvent::BtDeviceChanged(dev_data(
        "AA:BB:CC:DD:EE:02",
        "kbd",
        true,
        true,
    )));
    // Confirmed change clears connecting/disconnecting but not removing:
    // that resolves only with the removal itself or an error.
    assert!(m.bt_devices[0].removing);
    let _ = m.handle_event(BackendEvent::BtDeviceRemoved("AA:BB:CC:DD:EE:02".to_string()));
    assert!(m.bt_devices.is_empty());
}

#[test]
fn bt_power_off_purges_unpaired_and_connections() {
    let mut m = WlcontrolManager::new();
    m.handle_event(BackendEvent::BtPowered(true));
    m.handle_event(BackendEvent::BtDiscovering(true));
    m.handle_event(BackendEvent::BtDeviceAdded(dev_data("AA:BB:CC:DD:EE:01", "buds", true, true)));
    m.handle_event(BackendEvent::BtDeviceAdded(dev_data("AA:BB:CC:DD:EE:02", "tv", false, false)));
    let signals = m.handle_event(BackendEvent::BtPowered(false));
    assert!(matches!(signals[..], [UiSignal::BtDeviceUpdated]));
    assert!(!m.bt_powered);
    assert!(!m.bt_discovering);
    assert_eq!(m.bt_devices.len(), 1);
    assert_eq!(m.bt_devices[0].address, "AA:BB:CC:DD:EE:01");
    assert!(!m.bt_devices[0].connected);
}

#[test]
fn bt_device_added_twice_updates_in_place() {
    let mut m = WlcontrolManager::new();
    let s1 = m.handle_event(BackendEvent::BtDeviceAdded(dev_data("AA:BB:CC:DD:EE:03", "a", false, false)));
    assert!(s1.is_empty());
    let mut refreshed = dev_data("AA:BB:CC:DD:EE:03", "a", true, false);
    refreshed.rssi = -60;
    let s2 = m.handle_event(BackendEvent::BtDeviceAdded(refreshed));
    assert!(matches!(s2[..], [UiSignal::BtDeviceUpdated]));
    assert_eq!(m.bt_devices.len(), 1);
    assert!(m.bt_devices[0].paired);
    assert_eq!(m.bt_devices[0].rssi, -60);
}

#[test]
fn bt_device_name_falls_back_to_alias() {
    let mut m = WlcontrolManager::new();
    let mut d = dev_data("AA:BB:CC:DD:EE:04", "", false, false);
    d.alias = "Speaker".to_string();
    m.handle_event(BackendEvent::BtDeviceAdded(d));
    assert_eq!(m.bt_devices[0].name, "Speaker");
}

#[test]
fn passphrase_and_pairing_signals_pass_through() {
    let mut m = WlcontrolManager::new();
    let s = m.handle_event(BackendEvent::PassphraseRequest {
        network_path: "/net/1".to_string(),
        network_name: "alpha".to_string(),
    });
    assert!(matches!(&s[..], [UiSignal::PassphraseRequested { network_path, network_name }]
        if network_path == "/net/1" && network_name == "alpha"));
    let s = m.handle_event(BackendEvent::CaptivePortal { url: "http://portal".to_string() });
    assert!(matches!(&s[..], [UiSignal::CaptivePortal { url }] if url == "http://portal"));
}

#[test]
fn availability_and_inventory_events_update_flags() {
    let mut m = WlcontrolManager::new();
    m.handle_event(BackendEvent::WifiAvailable(true));
    m.handle_event(BackendEvent::BtAvailable(true));
    m.handle_event(BackendEvent::WifiPowered(true));
    m.handle_event(BackendEvent::WifiScanning(true));
    m.handle_event(BackendEvent::BtDiscoverable(true));
    assert!(m.wifi_available && m.bt_available && m.wifi_powered);
    assert!(m.wifi_scanning && m.bt_discoverable);
}

#[test]
fn forget_known_marks_saved_entry() {
    let mut m = WlcontrolManager::new();
    m.handle_event(BackendEvent::WifiKnownNetworks(vec![
        known_data("/known/far", "faraway", "psk"),
    ]));
    let cmd = m.request_wifi_forget_known("/known/far");
    assert!(matches!(cmd, BackendCommand::WifiForgetKnown { path } if path == "/known/far"));
    assert!(m.saved_networks[0].forgetting);
}

#[test]
fn disconnect_request_marks_connected_network() {
    let mut m = WlcontrolManager::new();
    m.handle_event(BackendEvent::WifiNetworks(vec![
        net_data("/net/1", "alpha", "psk", false, false),
        net_data("/net/2", "beta", "psk", true, true),
    ]));
    let cmd = m.request_wifi_disconnect();
    assert!(matches!(cmd, BackendCommand::WifiDisconnect));
    assert!(!m.wifi_networks[0].disconnecting);
    assert!(m.wifi_networks[1].disconnecting);
}

#[test]
fn network_known_event_marks_entry() {
    let mut m = WlcontrolManager::new();
    m.handle_event(BackendEvent::WifiNetworks(vec![
        net_data("/net/1", "alpha", "psk", false, false),
    ]));
    m.handle_event(BackendEvent::WifiNetworkKnown { path: "/net/1".to_string() });
    assert!(m.wifi_networks[0].known);
}
