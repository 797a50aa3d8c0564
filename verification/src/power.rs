//! Events of the power service, as they travel over its bus.

use vstd::prelude::*;

verus! {

/// Kind of a power event.
#[derive(Debug, Clone, Copy, PartialEq, Eq, Structural)]
pub enum PowerEventType {
    StopCharging,
    StartCharging,
    FullyCharged,
    BatteryLevelChanged,
}

/// What a power event carries besides its kind.
#[derive(Debug, Clone, Copy, PartialEq, Eq, Structural)]
pub struct PowerEventData {
    /// Charge of the battery in %.
    pub battery_level: u8,
}

/// A power event.
#[derive(Debug, Clone, Copy, PartialEq, Eq, Structural)]
pub struct PowerEvent {
    pub type_: PowerEventType,
    pub data: PowerEventData,
}

} // verus!
