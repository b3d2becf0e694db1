//! A device discovery session coordinator for a wireless adapter.
//!
//! The coordinator drives one bounded scan-wait-collect cycle: it resolves an
//! adapter, starts a scan, waits a fixed number of seconds, collects the
//! visible peripheral addresses, and classifies every failure along the way.
//! The session logic is a pure state machine; the caller performs the actual
//! adapter calls and feeds their outcomes back as events.

use vstd::prelude::*;

pub mod address;
pub mod btle;
pub mod runtime;
pub mod sniffer;

verus! {

/// The closed set of discovery failure kinds. A session in one of these
/// states is terminal: it never retries on its own.
#[derive(Clone, Copy, Debug, PartialEq, Eq, Structural)]
pub enum BluetoothError {
    /// Adapter enumeration failed or yielded no adapter.
    AdapterNotFound,
    /// The adapter rejected the request to start scanning.
    ScanStartFailed,
    /// The scan completed but no peripheral was visible.
    NoDevicesFound,
    /// The visibility query itself failed.
    Unknown,
}

} // verus!
