//! The events the host runtime delivers, reduced to the plain values the two
//! screens read. Every discriminant the screens do not recognize arrives as
//! `Other` and is ignored without error.

use vstd::prelude::*;

verus! {

/// The phase of the radio link.
#[derive(Clone, Copy, Debug, PartialEq, Eq, Structural)]
pub enum RadioPhase {
    Advertising,
    Connected,
    Idle,
}

/// One status event from the host runtime's event bus.
#[derive(Clone, Copy, Debug, PartialEq, Eq, Structural)]
pub enum Event {
    /// The active layer changed to this index.
    Layer(u8),
    /// The battery level, as a percentage.
    Battery(u8),
    /// The radio profile index together with the phase of the link.
    BleState(u8, RadioPhase),
    /// The radio profile index alone.
    BleProfile(u8),
    /// Whether the battery is charging.
    ChargingState(bool),
    /// The transport kind: `0` is USB, anything else is wireless.
    ConnectionType(u8),
    /// Link state reported by a peripheral half, with its index.
    SplitPeripheral(u8, bool),
    /// Link state reported by the central half.
    SplitCentral(bool),
    /// Whether the device is going to sleep.
    Sleep(bool),
    /// The stored radio peers were cleared.
    ClearPeer,
    /// Any discriminant neither screen reads.
    Other,
}

} // verus!
