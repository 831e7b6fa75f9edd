//! The event-loop core: command handling, the scan deadline, hot-plug
//! reconciliation, outcome functions, the connect slot, and backoff.

use wlcontrol::backend::{
    bt_device_added_outcome, bt_device_removed_outcome, bt_device_unavailable, bt_remove_outcome,
    bt_toggle_outcome, is_valid_bt_address, select_initial_adapter, wifi_connect_outcome,
    wifi_disconnect_outcome, wifi_forget_outcome, wifi_scan_outcome, wifi_set_powered_outcome,
    BackendState, BtAddedOutcome, BtAdapterEvent, BtDeviceProperty, BtPairingRequest,
    BtRemovedOutcome, Effect, LoopEvent, WifiConnectResult, WifiForgetStage,
};
use wlcontrol::backoff::{backoff_delay_ms, STATION_POLL_ATTEMPTS};
use wlcontrol::slot::ConnectSlot;
use wlcontrol::types::{BackendCommand, BackendEvent, BtDeviceData, BtPairingKind, IwdDeviceInfo};
use wlcontrol::LoopAction;

fn state(wifi: bool, bt: bool) -> BackendState {
    BackendState {
        wifi_present: wifi,
        bt_present: bt,
        discovery_active: false,
        scan_deadline_armed: false,
        station_streams_active: false,
        pending_passphrase: false,
        pending_pairing: false,
        pending_pin: false,
        pending_passkey: false,
        wifi_device_infos: Vec::new(),
        active_device_path: if wifi { Some("/phy0/dev0".to_string()) } else { None },
    }
}

fn info(path: &str) -> IwdDeviceInfo {
    IwdDeviceInfo {
        device_path: path.to_string(),
        device_name: "wlan0".to_string(),
        vendor: "v".to_string(),
        model: "m".to_string(),
    }
}

fn dev_data(address: &str, paired: bool) -> BtDeviceData {
    BtDeviceData {
        address: address.to_string(),
        name: "thing".to_string(),
        alias: "thing".to_string(),
        icon: "bluetooth".to_string(),
        paired,
        trusted: false,
        connected: false,
        battery_percentage: -1,
        rssi: i16::MIN,
    }
}

#[test]
fn scan_timeout_stops_discovery_exactly_once() {
    let mut s = state(false, true);
    let fx = s.apply_discovery_started(None);
    assert!(s.discovery_active && s.scan_deadline_armed);
    assert!(matches!(
        &fx[..],
        [Effect::Emit(BackendEvent::BtDiscovering(true))]
    ));
    // The 30-second deadline fires with no stop command in between.
    let (action, fx) = s.handle_event(LoopEvent::BtScanTimeout);
    assert!(matches!(action, LoopAction::Continue));
    assert!(matches!(
        &fx[..],
        [Effect::BtDropDiscovery, Effect::Emit(BackendEvent::BtDiscovering(false))]
    ));
    assert!(!s.discovery_active && !s.scan_deadline_armed);
    // A second firing finds nothing to stop: no second report.
    let (_, fx) = s.handle_event(LoopEvent::BtScanTimeout);
    assert!(fx.is_empty());
}

#[test]
fn stop_scan_cancels_deadline_and_rebuilds_streams() {
    let mut s = state(false, true);
    let _ = s.apply_discovery_started(None);
    let (_, fx) = s.handle_event(LoopEvent::Command(BackendCommand::BtStopScan));
    assert!(matches!(
        &fx[..],
        [
            Effect::BtDropDiscovery,
            Effect::Emit(BackendEvent::BtDiscovering(false)),
            Effect::BtRebuildDeviceStreams
        ]
    ));
    assert!(!s.scan_deadline_armed);
}

#[test]
fn scan_request_without_adapter_is_dropped_silently() {
    let mut s = state(false, true);
    let (_, fx) = s.handle_event(LoopEvent::Command(BackendCommand::WifiScan));
    assert!(fx.is_empty());
}

#[test]
fn powered_on_transition_polls_for_station() {
    let mut s = state(true, false);
    let (_, fx) = s.handle_event(LoopEvent::WifiPoweredChanged(true));
    assert!(matches!(
        &fx[..],
        [
            Effect::Emit(BackendEvent::WifiPowered(true)),
            Effect::SetupStationStreamsRetry,
            Effect::SendNetworks,
            Effect::SendKnownNetworks
        ]
    ));
    assert!(s.station_streams_active);
    // A scan request right after the transition is forwarded; the station
    // call itself silently does nothing until the interface appears.
    let (_, fx) = s.handle_event(LoopEvent::Command(BackendCommand::WifiScan));
    assert!(matches!(&fx[..], [Effect::WifiScanCall]));
}

#[test]
fn backoff_schedule_doubles_to_a_cap() {
    assert_eq!(STATION_POLL_ATTEMPTS, 10);
    let delays: Vec<u64> = (0..5).map(backoff_delay_ms).collect();
    assert_eq!(delays, vec![50, 100, 200, 400, 800]);
    assert_eq!(delays.iter().sum::<u64>(), 1550);
    assert_eq!(backoff_delay_ms(7), 800);
}

#[test]
fn powered_off_clears_station_state() {
    let mut s = state(true, false);
    s.station_streams_active = true;
    let (_, fx) = s.handle_event(LoopEvent::WifiPoweredChanged(false));
    assert!(matches!(
        &fx[..],
        [
            Effect::Emit(BackendEvent::WifiPowered(false)),
            Effect::TeardownStationStreams,
            Effect::Emit(BackendEvent::WifiNetworks(nets))
        ] if nets.is_empty()
    ));
    assert!(!s.station_streams_active);
}

#[test]
fn connect_failure_reports_actual_network_and_mapped_error() {
    let events = wifi_connect_outcome(
        "/net/x/1".to_string(),
        WifiConnectResult::Failed("GDBus error: net.connman.iwd.AuthenticationFailed".to_string()),
        Some("/net/x/0".to_string()),
    );
    assert!(matches!(
        &events[..],
        [
            BackendEvent::WifiConnected(Some(actual)),
            BackendEvent::WifiError(msg)
        ] if actual == "/net/x/0" && msg == "Wrong password"
    ));
}

#[test]
fn connect_success_reports_connection_and_saved_network() {
    let events = wifi_connect_outcome("/net/x/1".to_string(), WifiConnectResult::Connected, None);
    assert!(matches!(
        &events[..],
        [
            BackendEvent::WifiConnected(Some(p)),
            BackendEvent::WifiNetworkKnown { path }
        ] if p == "/net/x/1" && path == "/net/x/1"
    ));
}

#[test]
fn connect_timeout_keeps_actual_connection() {
    let events = wifi_connect_outcome(
        "/net/x/1".to_string(),
        WifiConnectResult::TimedOut,
        Some("/net/x/0".to_string()),
    );
    assert!(matches!(
        &events[..],
        [
            BackendEvent::WifiConnected(Some(actual)),
            BackendEvent::WifiError(msg)
        ] if actual == "/net/x/0" && msg == "Connection timed out"
    ));
}

#[test]
fn scan_power_and_lookup_outcomes() {
    assert!(wifi_scan_outcome(None).is_empty());
    let ev = wifi_scan_outcome(Some("Busy".to_string()));
    assert!(matches!(&ev[..], [BackendEvent::WifiError(m)] if m == "Scan: Busy"));
    assert!(wifi_set_powered_outcome(None).is_empty());
    let ev = wifi_set_powered_outcome(Some("denied".to_string()));
    assert!(matches!(&ev[..], [BackendEvent::WifiError(m)] if m == "Power: denied"));
    let ev = bt_device_unavailable("unknown device".to_string());
    assert!(matches!(&ev[..], [BackendEvent::BtError(m)] if m == "Device not found: unknown device"));
}

#[test]
fn disconnect_and_forget_outcomes() {
    let ev = wifi_disconnect_outcome(None);
    assert!(matches!(&ev[..], [BackendEvent::WifiConnected(None)]));
    let ev = wifi_disconnect_outcome(Some("Busy".to_string()));
    assert!(matches!(&ev[..], [BackendEvent::WifiError(m)] if m == "Disconnect: Busy"));
    let fx = wifi_forget_outcome(WifiForgetStage::Done);
    assert!(matches!(&fx[..], [Effect::SendNetworks]));
    let fx = wifi_forget_outcome(WifiForgetStage::NotSaved);
    assert!(matches!(&fx[..], [Effect::Emit(BackendEvent::WifiError(m))]
        if m == "Network is not saved"));
    let fx = wifi_forget_outcome(WifiForgetStage::CallFailed("nope".to_string()));
    assert!(matches!(&fx[..], [Effect::Emit(BackendEvent::WifiError(m))] if m == "Forget: nope"));
}

#[test]
fn removed_device_still_paired_becomes_changed() {
    let requeried = dev_data("AA:BB:CC:DD:EE:01", true);
    let out = bt_device_removed_outcome("AA:BB:CC:DD:EE:01".to_string(), Some(requeried));
    assert!(matches!(&out, BtRemovedOutcome::StillPaired(d) if d.paired));
}

#[test]
fn removed_device_without_pairing_is_removed() {
    let out = bt_device_removed_outcome("AA:BB:CC:DD:EE:01".to_string(), None);
    assert!(matches!(&out, BtRemovedOutcome::Removed(a) if a == "AA:BB:CC:DD:EE:01"));
    let requeried = dev_data("AA:BB:CC:DD:EE:01", false);
    let out = bt_device_removed_outcome("AA:BB:CC:DD:EE:01".to_string(), Some(requeried));
    assert!(matches!(&out, BtRemovedOutcome::Removed(a) if a == "AA:BB:CC:DD:EE:01"));
}

#[test]
fn advertisement_noise_is_ignored() {
    let mut d = dev_data("AA:BB:CC:DD:EE:01", false);
    d.name = String::new();
    d.alias = "AA:BB:CC:DD:EE:01".to_string();
    assert!(matches!(bt_device_added_outcome(Some(d)), BtAddedOutcome::Ignore));
    assert!(matches!(bt_device_added_outcome(None), BtAddedOutcome::Ignore));
    let named = dev_data("AA:BB:CC:DD:EE:01", false);
    assert!(matches!(bt_device_added_outcome(Some(named)), BtAddedOutcome::Announce(_)));
}

#[test]
fn remove_outcome_tolerates_already_gone() {
    let ev = bt_remove_outcome("AA:BB:CC:DD:EE:01".to_string(), None);
    assert!(matches!(&ev[..], [BackendEvent::BtDeviceRemoved(a)] if a == "AA:BB:CC:DD:EE:01"));
    let ev = bt_remove_outcome(
        "AA:BB:CC:DD:EE:01".to_string(),
        Some("org.bluez.Error.DoesNotExist: Does Not Exist".to_string()),
    );
    assert!(matches!(&ev[..], [BackendEvent::BtDeviceRemoved(_)]));
    let ev = bt_remove_outcome("AA:BB:CC:DD:EE:01".to_string(), Some("busy".to_string()));
    assert!(matches!(&ev[..], [BackendEvent::BtError(m)] if m == "Device is busy, try again."));
}

#[test]
fn toggle_failure_rolls_back_with_actual_state() {
    let ev = bt_toggle_outcome(false, true, None, None);
    assert!(matches!(&ev[..], [BackendEvent::BtPowered(true)]));
    let ev = bt_toggle_outcome(false, true, Some("not-ready".to_string()), Some(false));
    assert!(matches!(
        &ev[..],
        [BackendEvent::BtError(m), BackendEvent::BtPowered(false)] if m == "Bluetooth is not ready."
    ));
    let ev = bt_toggle_outcome(true, true, Some("busy".to_string()), Some(false));
    assert!(matches!(&ev[..], [BackendEvent::BtError(_), BackendEvent::BtDiscoverable(false)]));
}

#[test]
fn address_validation() {
    assert!(is_valid_bt_address("AA:BB:CC:DD:EE:FF"));
    assert!(is_valid_bt_address("00:11:22:aa:bb:cc"));
    assert!(!is_valid_bt_address("AA:BB:CC:DD:EE"));
    assert!(!is_valid_bt_address("AA:BB:CC:DD:EE:GG"));
    assert!(!is_valid_bt_address("AABBCCDDEEFF"));
    assert!(!is_valid_bt_address(""));
}

#[test]
fn invalid_address_is_reported_for_connect_only() {
    let mut s = state(false, true);
    let (_, fx) = s.handle_event(LoopEvent::Command(BackendCommand::BtConnect {
        path: "nonsense".to_string(),
    }));
    assert!(matches!(&fx[..], [Effect::Emit(BackendEvent::BtError(m))]
        if m == "Invalid Bluetooth address"));
    let (_, fx) = s.handle_event(LoopEvent::Command(BackendCommand::BtDisconnect {
        path: "nonsense".to_string(),
    }));
    assert!(fx.is_empty());
}

#[test]
fn connect_command_emits_connecting_then_calls() {
    let mut s = state(false, true);
    let (_, fx) = s.handle_event(LoopEvent::Command(BackendCommand::BtConnect {
        path: "AA:BB:CC:DD:EE:FF".to_string(),
    }));
    assert!(matches!(
        &fx[..],
        [
            Effect::Emit(BackendEvent::BtConnecting(a)),
            Effect::BtConnectCall { address }
        ] if a == "AA:BB:CC:DD:EE:FF" && address == "AA:BB:CC:DD:EE:FF"
    ));
}

#[test]
fn pair_command_spawns_independent_work() {
    let mut s = state(false, true);
    let (_, fx) = s.handle_event(LoopEvent::Command(BackendCommand::BtPair {
        path: "AA:BB:CC:DD:EE:FF".to_string(),
    }));
    assert!(matches!(
        &fx[..],
        [Effect::Emit(BackendEvent::BtConnecting(_)), Effect::BtPairSpawn { .. }]
    ));
}

#[test]
fn shutdown_breaks_and_cancels() {
    let mut s = state(true, true);
    s.discovery_active = true;
    let (action, fx) = s.handle_event(LoopEvent::Command(BackendCommand::Shutdown));
    assert!(matches!(action, LoopAction::Break));
    assert!(matches!(&fx[..], [Effect::WifiCancelPendingConnect, Effect::BtDropDiscovery]));
    let mut s2 = state(false, false);
    let (action, fx) = s2.handle_event(LoopEvent::CommandChannelClosed);
    assert!(matches!(action, LoopAction::Break));
    assert!(fx.is_empty());
}

#[test]
fn pairing_requests_fill_one_slot_each() {
    let mut s = state(false, true);
    let (_, fx) = s.handle_event(LoopEvent::BtPairingRequest(BtPairingRequest::ConfirmPasskey {
        address: "AA:BB:CC:DD:EE:FF".to_string(),
        passkey: 42,
    }));
    assert!(s.pending_pairing);
    assert!(matches!(
        &fx[..],
        [Effect::Emit(BackendEvent::BtPairing { kind: BtPairingKind::ConfirmPasskey(code), address })]
            if code == "000042" && address == "AA:BB:CC:DD:EE:FF"
    ));
    // Display-only kinds complete without a reply slot.
    let (_, fx) = s.handle_event(LoopEvent::BtPairingRequest(BtPairingRequest::DisplayPinCode {
        address: "AA:BB:CC:DD:EE:FF".to_string(),
        pin_code: "1234".to_string(),
    }));
    assert!(!s.pending_pin);
    assert!(matches!(
        &fx[..],
        [Effect::Emit(BackendEvent::BtPairing { kind: BtPairingKind::DisplayPin(p), .. })]
            if p == "1234"
    ));
    // The answer resolves the slot; a second answer finds none.
    let (_, fx) = s.handle_event(LoopEvent::Command(BackendCommand::BtPairingResponse {
        accept: true,
    }));
    assert!(!s.pending_pairing);
    assert!(matches!(&fx[..], [Effect::ResolvePairingConfirm { accept: true }]));
    let (_, fx) = s.handle_event(LoopEvent::Command(BackendCommand::BtPairingResponse {
        accept: false,
    }));
    assert!(fx.is_empty());
}

#[test]
fn oversized_passkey_is_skipped_as_malformed() {
    let mut s = state(false, true);
    let (_, fx) = s.handle_event(LoopEvent::BtPairingRequest(BtPairingRequest::ConfirmPasskey {
        address: "AA:BB:CC:DD:EE:FF".to_string(),
        passkey: 1_000_000,
    }));
    assert!(fx.is_empty());
    assert!(!s.pending_pairing);
}

#[test]
fn passphrase_flow_arms_and_resolves_slot() {
    let mut s = state(true, false);
    let (_, fx) = s.handle_event(LoopEvent::PassphraseRequest {
        network_path: "/net/1".to_string(),
        network_name: "alpha".to_string(),
    });
    assert!(s.pending_passphrase);
    assert!(matches!(&fx[..], [Effect::Emit(BackendEvent::PassphraseRequest { .. })]));
    let (_, fx) = s.handle_event(LoopEvent::Command(BackendCommand::PassphraseResponse {
        passphrase: None,
    }));
    assert!(!s.pending_passphrase);
    assert!(matches!(&fx[..], [Effect::ResolvePassphrase { passphrase: None }]));
}

#[test]
fn adapter_removal_selects_next_device_first_discovered_wins() {
    let mut s = state(true, false);
    s.active_device_path = Some("/phy0/dev0".to_string());
    let (_, fx) = s.handle_event(LoopEvent::IwdDeviceRemoved {
        object_path: "/phy0/dev0".to_string(),
    });
    assert!(matches!(&fx[..], [Effect::ReenumerateWifiDevices { removed_path: Some(p) }]
        if p == "/phy0/dev0"));
    let fx = s.apply_wifi_reenumeration(
        vec![info("/phy1/dev1"), info("/phy2/dev2")],
        Some("/phy0/dev0"),
    );
    assert_eq!(s.active_device_path.as_deref(), Some("/phy1/dev1"));
    assert!(s.wifi_present);
    assert!(matches!(
        &fx[..],
        [Effect::SwitchAdapter, Effect::Emit(BackendEvent::WifiDevices { devices, active_path })]
            if devices.len() == 2 && active_path.as_deref() == Some("/phy1/dev1")
    ));
}

#[test]
fn adapter_removal_with_none_left_clears_wifi() {
    let mut s = state(true, false);
    let fx = s.apply_wifi_reenumeration(vec![], Some("/phy0/dev0"));
    assert!(!s.wifi_present);
    assert_eq!(s.active_device_path, None);
    assert!(matches!(
        &fx[..],
        [
            Effect::TeardownStationStreams,
            Effect::Emit(BackendEvent::WifiPowered(false)),
            Effect::Emit(BackendEvent::WifiNetworks(nets)),
            Effect::Emit(BackendEvent::WifiDevices { devices, active_path: None })
        ] if nets.is_empty() && devices.is_empty()
    ));
}

#[test]
fn adapter_removal_of_inactive_device_keeps_selection() {
    let mut s = state(true, false);
    let fx = s.apply_wifi_reenumeration(vec![info("/phy0/dev0")], Some("/phy9/dev9"));
    assert_eq!(s.active_device_path.as_deref(), Some("/phy0/dev0"));
    assert!(matches!(&fx[..], [Effect::Emit(BackendEvent::WifiDevices { .. })]));
}

#[test]
fn initial_adapter_prefers_connected_one() {
    let infos = vec![info("/a"), info("/b"), info("/c")];
    assert_eq!(select_initial_adapter(&infos, &vec![false, true, false]), Some(1));
    assert_eq!(select_initial_adapter(&infos, &vec![false, false, false]), Some(0));
    assert_eq!(select_initial_adapter(&Vec::new(), &Vec::new()), None);
}

#[test]
fn single_flight_connect_slot() {
    let mut slot = ConnectSlot::new();
    let (first, prev) = slot.install();
    assert_eq!(prev, None);
    // Starting the next connect before the first resolves hands the first
    // handle back for cancellation, exactly once.
    let (second, prev) = slot.install();
    assert_eq!(prev, Some(first));
    assert_ne!(first, second);
    // The aborted attempt never resolves; resolving its stale handle is a
    // no-op and the live one still stands.
    slot.resolve(first);
    let (third, prev) = slot.install();
    assert_eq!(prev, Some(second));
    // Shutdown empties the slot, cancelling the in-flight attempt.
    assert_eq!(slot.take_for_cancel(), Some(third));
    assert_eq!(slot.take_for_cancel(), None);
}

#[test]
fn discovery_events_route_to_queries() {
    let mut s = state(false, true);
    let (_, fx) = s.handle_event(LoopEvent::BtDiscoveryEvent(BtAdapterEvent::DeviceAdded(
        "AA:BB:CC:DD:EE:01".to_string(),
    )));
    assert!(matches!(&fx[..], [Effect::BtQueryDeviceAdded { address }]
        if address == "AA:BB:CC:DD:EE:01"));
    let (_, fx) = s.handle_event(LoopEvent::BtAdapterEvent(BtAdapterEvent::DeviceRemoved(
        "AA:BB:CC:DD:EE:01".to_string(),
    )));
    assert!(matches!(&fx[..], [Effect::BtQueryDeviceRemoved { .. }]));
    let (_, fx) = s.handle_event(LoopEvent::BtAdapterEvent(BtAdapterEvent::PoweredChanged(true)));
    assert!(matches!(&fx[..], [Effect::Emit(BackendEvent::BtPowered(true))]));
    let (_, fx) = s.handle_event(LoopEvent::BtDevicePropertyChanged {
        address: "AA:BB:CC:DD:EE:01".to_string(),
        property: BtDeviceProperty::Rssi,
    });
    assert!(matches!(&fx[..], [Effect::BtQueryDeviceChanged { .. }]));
    let (_, fx) = s.handle_event(LoopEvent::BtDevicePropertyChanged {
        address: "AA:BB:CC:DD:EE:01".to_string(),
        property: BtDeviceProperty::Other,
    });
    assert!(fx.is_empty());
}

#[test]
fn discovery_start_failure_reports_translated_error() {
    let mut s = state(false, true);
    let fx = s.apply_discovery_started(Some("org.bluez.Error.NotReady: not-ready".to_string()));
    assert!(!s.discovery_active);
    assert!(matches!(&fx[..], [Effect::Emit(BackendEvent::BtError(m))]
        if m == "Bluetooth is not ready."));
}

#[test]
fn bt_power_off_command_tears_everything_down() {
    let mut s = state(false, true);
    let _ = s.apply_discovery_started(None);
    let (_, fx) = s.handle_event(LoopEvent::Command(BackendCommand::BtSetPowered {
        powered: false,
    }));
    assert!(matches!(
        &fx[..],
        [
            Effect::BtDropDiscovery,
            Effect::Emit(BackendEvent::BtDiscovering(false)),
            Effect::BtTeardownStreams,
            Effect::BtSetPoweredCall { powered: false }
        ]
    ));
    assert!(!s.discovery_active && !s.scan_deadline_armed);
    let (_, fx) = s.handle_event(LoopEvent::Command(BackendCommand::BtSetPowered {
        powered: true,
    }));
    assert!(matches!(
        &fx[..],
        [
            Effect::BtSetPoweredCall { powered: true },
            Effect::BtSendInitialState,
            Effect::BtStartAdapterEvents
        ]
    ));
}
