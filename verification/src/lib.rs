//! Orchestration core for a wireless-network and Bluetooth control panel.
//!
//! The core mediates between a graphical client and two system daemons (a
//! wireless station daemon and a Bluetooth daemon) that are reachable only
//! over an asynchronous message bus.  Everything that decides — canonical
//! state derivation, command and event handling, error translation, list
//! reconciliation, the single-flight connect slot, retry backoff — lives here
//! and is verified.  The asynchronous bus plumbing that merely performs the
//! decided actions lives outside the library.

pub mod backoff;
pub mod backend;
pub mod device;
pub mod errors;
pub mod network;
pub mod slot;
pub mod store;
pub mod text;
pub mod types;

use vstd::prelude::*;

verus! {

/// What the event loop should do after handling one event.
pub enum LoopAction {
    Continue,
    Break,
}

} // verus!
