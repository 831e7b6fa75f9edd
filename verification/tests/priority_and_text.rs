//! Canonical state priorities, error translation, and text helpers.

use wlcontrol::device::{BtDevice, BtDeviceState};
use wlcontrol::errors::{format_bt_error, format_iwd_error};
use wlcontrol::network::{WifiNetwork, WifiNetworkState};
use wlcontrol::text::{format_passkey, str_contains, str_eq};

fn net(
    connected: bool,
    known: bool,
    offline: bool,
    connecting: bool,
    disconnecting: bool,
    forgetting: bool,
) -> WifiNetwork {
    WifiNetwork {
        path: "/net/0".to_string(),
        name: "home".to_string(),
        network_type: "psk".to_string(),
        signal_strength: -5000,
        connected,
        known,
        offline,
        connecting,
        disconnecting,
        forgetting,
    }
}

fn dev(
    paired: bool,
    connected: bool,
    connecting: bool,
    disconnecting: bool,
    removing: bool,
) -> BtDevice {
    BtDevice {
        path: "AA:BB:CC:DD:EE:FF".to_string(),
        address: "AA:BB:CC:DD:EE:FF".to_string(),
        name: "buds".to_string(),
        alias: "buds".to_string(),
        icon: "audio-headset".to_string(),
        paired,
        trusted: false,
        connected,
        connecting,
        disconnecting,
        removing,
        battery_percentage: -1,
        rssi: i16::MIN,
    }
}

#[test]
fn wifi_state_priority_order() {
    assert_eq!(net(true, true, false, true, true, true).state(), WifiNetworkState::Forgetting);
    assert_eq!(net(true, true, false, true, true, false).state(), WifiNetworkState::Disconnecting);
    assert_eq!(net(true, true, false, true, false, false).state(), WifiNetworkState::Connecting);
    assert_eq!(net(true, true, false, false, false, false).state(), WifiNetworkState::Connected);
    assert_eq!(net(false, true, true, false, false, false).state(), WifiNetworkState::SavedOffline);
    assert_eq!(net(false, true, false, false, false, false).state(), WifiNetworkState::Saved);
    assert_eq!(net(false, false, false, false, false, false).state(), WifiNetworkState::Available);
}

#[test]
fn bt_state_priority_order() {
    assert_eq!(dev(true, true, true, true, true).state(), BtDeviceState::Removing);
    assert_eq!(dev(true, true, true, true, false).state(), BtDeviceState::Disconnecting);
    assert_eq!(dev(true, true, true, false, false).state(), BtDeviceState::Connecting);
    assert_eq!(dev(false, true, true, false, false).state(), BtDeviceState::Pairing);
    assert_eq!(dev(true, true, false, false, false).state(), BtDeviceState::Connected);
    assert_eq!(dev(true, false, false, false, false).state(), BtDeviceState::Paired);
    assert_eq!(dev(false, false, false, false, false).state(), BtDeviceState::Discovered);
}

#[test]
fn bt_state_every_flag_combination_is_deterministic() {
    for bits in 0u32..32 {
        let d = dev(bits & 1 != 0, bits & 2 != 0, bits & 4 != 0, bits & 8 != 0, bits & 16 != 0);
        let expected = if d.removing {
            BtDeviceState::Removing
        } else if d.disconnecting {
            BtDeviceState::Disconnecting
        } else if d.connecting {
            if d.paired { BtDeviceState::Connecting } else { BtDeviceState::Pairing }
        } else if d.connected {
            BtDeviceState::Connected
        } else if d.paired {
            BtDeviceState::Paired
        } else {
            BtDeviceState::Discovered
        };
        assert_eq!(d.state(), expected);
    }
}

#[test]
fn iwd_error_taxonomy() {
    assert_eq!(format_iwd_error("Operation Aborted"), "Connection cancelled");
    assert_eq!(format_iwd_error("net.connman.iwd.Canceled"), "Connection cancelled");
    assert_eq!(format_iwd_error("InvalidFormat: bad psk"), "Invalid password");
    assert_eq!(format_iwd_error("InvalidArguments"), "Invalid password");
    assert_eq!(format_iwd_error("net.connman.iwd.AuthenticationFailed"), "Wrong password");
    assert_eq!(format_iwd_error("NotConnected"), "Not connected");
    assert_eq!(format_iwd_error("Busy"), "Device is busy, try again");
    assert_eq!(format_iwd_error("NotFound"), "Network not found");
    assert_eq!(format_iwd_error("NoAgent"), "No agent registered");
    assert_eq!(format_iwd_error("Operation Failed"), "Connection failed");
    assert_eq!(format_iwd_error("weird"), "Connection failed: weird");
}

#[test]
fn iwd_error_first_match_wins() {
    // Both "Aborted" and "Failed" occur; the earlier pattern decides.
    assert_eq!(format_iwd_error("Aborted then Failed"), "Connection cancelled");
}

#[test]
fn bt_error_taxonomy() {
    assert_eq!(
        format_bt_error("le-connection-abort-by-local"),
        "Device not responding. Make sure it is turned on and nearby."
    );
    assert_eq!(format_bt_error("page-timeout"),
        "Device not responding. Make sure it is turned on and nearby.");
    assert_eq!(format_bt_error("profile-unavailable"),
        "No compatible services found on the device.");
    assert_eq!(format_bt_error("already-connected"), "Already connected.");
    assert_eq!(format_bt_error("connection-timeout"), "Connection timed out.");
    assert_eq!(format_bt_error("connection-attempt-failed"), "Connection timed out.");
    assert_eq!(format_bt_error("connection-refused"), "Connection refused by the device.");
    assert_eq!(format_bt_error("aborted-by-remote"), "Device disconnected or turned off.");
    assert_eq!(format_bt_error("ECONNRESET"), "Device disconnected or turned off.");
    assert_eq!(format_bt_error("not-powered"), "Bluetooth adapter is not powered on.");
    assert_eq!(format_bt_error("not-supported"), "Operation not supported.");
    assert_eq!(format_bt_error("EOPNOTSUPP"), "Operation not supported.");
    assert_eq!(format_bt_error("busy"), "Device is busy, try again.");
    assert_eq!(format_bt_error("EBUSY"), "Device is busy, try again.");
    assert_eq!(format_bt_error("in-progress"), "Device is busy, try again.");
    assert_eq!(format_bt_error("not-ready"), "Bluetooth is not ready.");
    assert_eq!(format_bt_error("rejected"), "Operation cancelled.");
    assert_eq!(format_bt_error("canceled"), "Operation cancelled.");
    assert_eq!(format_bt_error("not-paired"), "Device is not paired. Pair first.");
    assert_eq!(format_bt_error("not paired"), "Device is not paired. Pair first.");
    assert_eq!(format_bt_error("authentication failure"), "Authentication failed.");
    assert_eq!(format_bt_error("auth"), "Authentication failed.");
    assert_eq!(format_bt_error("gremlins"), "Bluetooth error: gremlins");
}

#[test]
fn substring_search() {
    assert!(str_contains("AuthenticationFailed at step 3", "AuthenticationFailed"));
    assert!(!str_contains("Authentication", "AuthenticationFailed"));
    assert!(str_contains("abc", ""));
    assert!(!str_contains("", "a"));
    assert!(str_contains("aaab", "aab"));
}

#[test]
fn string_equality() {
    assert!(str_eq("open", "open"));
    assert!(!str_eq("open", "psk"));
    assert!(!str_eq("open", "ope"));
    assert!(str_eq("", ""));
}

#[test]
fn passkey_is_six_digits_zero_padded() {
    assert_eq!(format_passkey(0), "000000");
    assert_eq!(format_passkey(42), "000042");
    assert_eq!(format_passkey(123456), "123456");
    assert_eq!(format_passkey(999999), "999999");
}

#[test]
fn display_name_fallbacks() {
    let mut d = dev(false, false, false, false, false);
    assert_eq!(d.display_name(), "buds");
    d.alias = String::new();
    assert_eq!(d.display_name(), "buds");
    d.name = String::new();
    assert_eq!(d.display_name(), "AA:BB:CC:DD:EE:FF");
}

#[test]
fn device_presentation_helpers() {
    let mut d = dev(true, true, false, false, false);
    assert_eq!(d.device_icon(), "audio-headphones-symbolic");
    assert_eq!(d.device_type_name(), "Headset");
    d.icon = "input-mouse".to_string();
    assert_eq!(d.device_icon(), "input-mouse-symbolic");
    assert_eq!(d.device_type_name(), "Mouse");
    d.icon = "toaster".to_string();
    assert_eq!(d.device_icon(), "bluetooth-symbolic");
    assert_eq!(d.device_type_name(), "Bluetooth Device");
    assert!(!d.has_battery());
    d.battery_percentage = 95;
    assert!(d.has_battery());
    assert_eq!(d.battery_icon(), "battery-level-100-symbolic");
    d.battery_percentage = 55;
    assert_eq!(d.battery_icon(), "battery-level-60-symbolic");
    d.battery_percentage = -1;
    assert_eq!(d.battery_icon(), "battery-missing-symbolic");
    assert_eq!(d.rssi_icon(), None);
    d.rssi = -45;
    assert_eq!(d.rssi_icon(), Some("network-wireless-signal-excellent-symbolic"));
    d.rssi = -75;
    assert_eq!(d.rssi_icon(), Some("network-wireless-signal-ok-symbolic"));
}

#[test]
fn apply_data_keeps_identity_and_flags() {
    let mut d = dev(false, false, true, false, false);
    let data = wlcontrol::types::BtDeviceData {
        address: "11:22:33:44:55:66".to_string(),
        name: "new name".to_string(),
        alias: "new alias".to_string(),
        icon: "phone".to_string(),
        paired: true,
        trusted: true,
        connected: true,
        battery_percentage: 80,
        rssi: -40,
    };
    d.apply_data(&data);
    // Daemon fields refreshed, stable key and local operation flags kept.
    assert_eq!(d.address, "AA:BB:CC:DD:EE:FF");
    assert_eq!(d.name, "new name");
    assert!(d.paired && d.trusted && d.connected);
    assert_eq!(d.battery_percentage, 80);
    assert!(d.connecting);
}

#[test]
fn network_signal_helpers() {
    let mut n = net(false, false, false, false, false, false);
    n.signal_strength = -5750;
    assert_eq!(n.signal_dbm(), -57);
    assert_eq!(n.signal_icon(), "network-wireless-signal-good-symbolic");
    n.signal_strength = -4900;
    assert_eq!(n.signal_dbm(), -49);
    assert_eq!(n.signal_icon(), "network-wireless-signal-excellent-symbolic");
    n.signal_strength = -8000;
    assert_eq!(n.signal_icon(), "network-wireless-signal-weak-symbolic");
    assert!(n.is_secured());
    n.network_type = "open".to_string();
    assert!(!n.is_secured());
}
