//! The foreground consumer's view of discovery.
//!
//! The consumer keeps the latest terminal value a session delivered and polls
//! its result channel on its own schedule: the poll is handed whatever the
//! channel produced this tick — nothing, a success, or a classified error —
//! and updates the kept state accordingly. A poll that finds nothing changes
//! nothing.

use vstd::prelude::*;

use crate::BluetoothError;
use crate::address::DeviceAddress;
use crate::address::address_text;

verus! {

/// What the foreground consumer remembers between render ticks: the latest
/// delivered address list, or the latest classified error, or neither before
/// any session has delivered.
pub struct BTLESniffer {
    pub error_state: Option<BluetoothError>,
    pub addresses: Option<Vec<DeviceAddress>>,
}

impl BTLESniffer {
    /// A fresh consumer: no session has delivered anything yet.
    pub fn new() -> (s: Self)
        ensures
            s.error_state is None,
            s.addresses is None,
    {
        BTLESniffer { error_state: None, addresses: None }
    }

    /// Consumes what one non-blocking read of the result channel produced.
    /// An empty read leaves the state untouched, so polling an empty channel
    /// any number of times is a no-op; a terminal value replaces the kept
    /// state entirely, so exactly the latest terminal value is shown.
    pub fn poll(&mut self, incoming: Option<Result<Vec<DeviceAddress>, BluetoothError>>)
        ensures
            incoming is None ==> *final(self) == *old(self),
            incoming matches Some(Ok(v)) ==> final(self).addresses == Some(v)
                && final(self).error_state is None,
            incoming matches Some(Err(e)) ==> final(self).error_state == Some(e)
                && final(self).addresses is None,
    {
        match incoming {
            None => {},
            Some(Ok(v)) => {
                self.addresses = Some(v);
                self.error_state = None;
            },
            Some(Err(e)) => {
                self.error_state = Some(e);
                self.addresses = None;
            },
        }
    }

    /// The textual rendering of the kept addresses, one row per address, in
    /// the order they were delivered.
    pub fn address_rows(&self) -> (rows: Vec<Vec<u8>>)
        ensures
            self.addresses is None ==> rows@.len() == 0,
            self.addresses matches Some(v) ==> {
                &&& rows@.len() == v@.len()
                &&& forall|i: int|
                    0 <= i < v@.len() ==> rows@[i]@ == address_text(v@[i].octets@)
            },
    {
        let mut rows: Vec<Vec<u8>> = Vec::new();
        match &self.addresses {
            None => {},
            Some(v) => {
                let mut i: usize = 0;
                while i < v.len()
                    invariant
                        i <= v@.len(),
                        rows@.len() == i,
                        self.addresses matches Some(w) && w == v,
                        forall|j: int|
                            0 <= j < i ==> rows@[j]@ == address_text(v@[j].octets@),
                    decreases v@.len() - i,
                {
                    let row = v[i].to_ascii();
                    rows.push(row);
                    i = i + 1;
                }
            },
        }
        rows
    }
}

} // verus!
