//! One reading of the battery, as the monitor sees it.

use vstd::prelude::*;

verus! {

/// What the battery reports it is doing.
#[derive(Clone, Copy, Debug, PartialEq, Eq, Structural)]
pub enum OperatingState {
    Charging,
    Discharging,
    Full,
    NotCharging,
    /// Any other status text.
    Unknown,
}

/// One point-in-time sample of the battery. Charges are in µAh, the
/// current in µA and the voltage in µV.
#[derive(Clone, Copy, Debug, PartialEq, Eq, Structural)]
pub struct BatteryStatus {
    /// Charge level in percent.
    pub capacity: u8,
    pub status: OperatingState,
    pub charge_now: u64,
    /// Full charge capacity; kept for information only.
    pub charge_full: u64,
    /// Magnitude of the current; its direction follows from `status`.
    pub current_now: u64,
    pub voltage_now: u64,
    /// Whether external power is connected.
    pub ac_online: bool,
}

/// Whether the battery is draining with no external power connected.
pub open spec fn spec_is_discharging(s: BatteryStatus) -> bool {
    s.status == OperatingState::Discharging && !s.ac_online
}

impl BatteryStatus {
    /// Whether the battery is draining with no external power connected.
    pub fn is_discharging(&self) -> (r: bool)
        ensures
            r == spec_is_discharging(*self),
    {
        self.status == OperatingState::Discharging && !self.ac_online
    }
}

} // verus!
