//! Translation of daemon error strings into the fixed user-facing taxonomy.
//!
//! Both daemons report per-operation failures as free-form strings.  The
//! translation matches a fixed list of patterns, first match wins; a string
//! that matches nothing passes through behind a prefix.

use vstd::prelude::*;
use vstd::string::StrSliceExecFns;
use vstd::string::StringExecFns;

use crate::text::{contains_seq, str_contains};

verus! {

/// The exact text that the wireless error taxonomy assigns to a daemon error
/// string: the first matching pattern decides.
pub open spec fn wifi_error_text(s: Seq<char>) -> Seq<char> {
    if contains_seq(s, "Aborted"@) || contains_seq(s, "Canceled"@) {
        "Connection cancelled"@
    } else if contains_seq(s, "InvalidFormat"@) || contains_seq(s, "InvalidArguments"@) {
        "Invalid password"@
    } else if contains_seq(s, "AuthenticationFailed"@) {
        "Wrong password"@
    } else if contains_seq(s, "NotConnected"@) {
        "Not connected"@
    } else if contains_seq(s, "Busy"@) {
        "Device is busy, try again"@
    } else if contains_seq(s, "NotFound"@) {
        "Network not found"@
    } else if contains_seq(s, "NoAgent"@) {
        "No agent registered"@
    } else if contains_seq(s, "Failed"@) {
        "Connection failed"@
    } else {
        "Connection failed: "@ + s
    }
}

/// Translate a station-daemon error string to its user-facing message.
pub fn format_iwd_error(s: &str) -> (r: String)
    ensures
        r@ == wifi_error_text(s@),
{
    if str_contains(s, "Aborted") || str_contains(s, "Canceled") {
        "Connection cancelled".to_owned()
    } else if str_contains(s, "InvalidFormat") || str_contains(s, "InvalidArguments") {
        "Invalid password".to_owned()
    } else if str_contains(s, "AuthenticationFailed") {
        "Wrong password".to_owned()
    } else if str_contains(s, "NotConnected") {
        "Not connected".to_owned()
    } else if str_contains(s, "Busy") {
        "Device is busy, try again".to_owned()
    } else if str_contains(s, "NotFound") {
        "Network not found".to_owned()
    } else if str_contains(s, "NoAgent") {
        "No agent registered".to_owned()
    } else if str_contains(s, "Failed") {
        "Connection failed".to_owned()
    } else {
        let mut out = String::from_str("Connection failed: ");
        out.append(s);
        out
    }
}

/// The exact text that the Bluetooth error taxonomy assigns to a daemon error
/// string: the first matching pattern decides.
pub open spec fn bt_error_text(s: Seq<char>) -> Seq<char> {
    if contains_seq(s, "page-timeout"@) || contains_seq(s, "abort-by-local"@) {
        "Device not responding. Make sure it is turned on and nearby."@
    } else if contains_seq(s, "profile-unavailable"@) {
        "No compatible services found on the device."@
    } else if contains_seq(s, "already-connected"@) {
        "Already connected."@
    } else if contains_seq(s, "connection-timeout"@) || contains_seq(
        s,
        "connection-attempt-failed"@,
    ) {
        "Connection timed out."@
    } else if contains_seq(s, "connection-refused"@) {
        "Connection refused by the device."@
    } else if contains_seq(s, "aborted-by-remote"@) || contains_seq(s, "ECONNRESET"@) {
        "Device disconnected or turned off."@
    } else if contains_seq(s, "not-powered"@) {
        "Bluetooth adapter is not powered on."@
    } else if contains_seq(s, "not-supported"@) || contains_seq(s, "EOPNOTSUPP"@) {
        "Operation not supported."@
    } else if contains_seq(s, "busy"@) || contains_seq(s, "EBUSY"@) || contains_seq(
        s,
        "in-progress"@,
    ) {
        "Device is busy, try again."@
    } else if contains_seq(s, "not-ready"@) {
        "Bluetooth is not ready."@
    } else if contains_seq(s, "rejected"@) || contains_seq(s, "canceled"@) {
        "Operation cancelled."@
    } else if contains_seq(s, "not-paired"@) || contains_seq(s, "not paired"@) {
        "Device is not paired. Pair first."@
    } else if contains_seq(s, "authentication"@) || contains_seq(s, "auth"@) {
        "Authentication failed."@
    } else {
        "Bluetooth error: "@ + s
    }
}

/// Translate a Bluetooth-daemon error string to its user-facing message.
pub fn format_bt_error(s: &str) -> (r: String)
    ensures
        r@ == bt_error_text(s@),
{
    if str_contains(s, "page-timeout") || str_contains(s, "abort-by-local") {
        "Device not responding. Make sure it is turned on and nearby.".to_owned()
    } else if str_contains(s, "profile-unavailable") {
        "No compatible services found on the device.".to_owned()
    } else if str_contains(s, "already-connected") {
        "Already connected.".to_owned()
    } else if str_contains(s, "connection-timeout") || str_contains(
        s,
        "connection-attempt-failed",
    ) {
        "Connection timed out.".to_owned()
    } else if str_contains(s, "connection-refused") {
        "Connection refused by the device.".to_owned()
    } else if str_contains(s, "aborted-by-remote") || str_contains(s, "ECONNRESET") {
        "Device disconnected or turned off.".to_owned()
    } else if str_contains(s, "not-powered") {
        "Bluetooth adapter is not powered on.".to_owned()
    } else if str_contains(s, "not-supported") || str_contains(s, "EOPNOTSUPP") {
        "Operation not supported.".to_owned()
    } else if str_contains(s, "busy") || str_contains(s, "EBUSY") || str_contains(s, "in-progress")
        {
        "Device is busy, try again.".to_owned()
    } else if str_contains(s, "not-ready") {
        "Bluetooth is not ready.".to_owned()
    } else if str_contains(s, "rejected") || str_contains(s, "canceled") {
        "Operation cancelled.".to_owned()
    } else if str_contains(s, "not-paired") || str_contains(s, "not paired") {
        "Device is not paired. Pair first.".to_owned()
    } else if str_contains(s, "authentication") || str_contains(s, "auth") {
        "Authentication failed.".to_owned()
    } else {
        let mut out = String::from_str("Bluetooth error: ");
        out.append(s);
        out
    }
}

} // verus!
