//! Configuration values chosen by the owner of the acquisition loop: which
//! transport to read over, and whether acquisition has been started.

use vstd::prelude::*;
use crate::controller::{TransportMode, BLE, SERIAL};

verus! {

/// The connection type a user picks before acquisition starts.
#[derive(Debug, Clone, Copy, PartialEq, Eq, Structural)]
pub enum ConnectionType {
    Ble,
    Serial,
}

impl ConnectionType {
    /// The raw configuration tag this connection type stands for.
    pub open spec fn spec_tag(self) -> u8 {
        match self {
            ConnectionType::Ble => BLE,
            ConnectionType::Serial => SERIAL,
        }
    }

    /// The raw configuration tag handed to the acquisition loop for this
    /// connection type.
    pub fn tag(&self) -> (t: u8)
        ensures
            t == self.spec_tag(),
    {
        match self {
            ConnectionType::Ble => BLE,
            ConnectionType::Serial => SERIAL,
        }
    }

    /// Short display name of the connection type.
    pub fn label(&self) -> (r: &'static str)
        ensures
            self is Ble ==> r@ == "Ble"@,
            self is Serial ==> r@ == "Serial"@,
    {
        match self {
            ConnectionType::Ble => "Ble",
            ConnectionType::Serial => "Serial",
        }
    }
}

/// Each connection type's tag selects the matching transport, so a
/// selection made through this type can never reach the unrecognized
/// fallback.
pub proof fn lemma_tag_selects_transport(c: ConnectionType)
    ensures
        c is Ble ==> TransportMode::spec_from_tag(c.spec_tag()) == TransportMode::WirelessBLE,
        c is Serial ==> TransportMode::spec_from_tag(c.spec_tag()) == TransportMode::WiredSerial,
        TransportMode::spec_from_tag(c.spec_tag()) !is Unrecognized,
{
}

/// Whether the acquisition loop has been started yet.
#[derive(Debug, PartialEq, Eq, Structural)]
pub enum State {
    ReadyNow,
    ControllerStarted,
}

} // verus!
