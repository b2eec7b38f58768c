//! Values derived from one sample: power draw and time to empty.

use vstd::prelude::*;
use crate::battery::{BatteryStatus, OperatingState};

verus! {

/// What is derived from one sample.
#[derive(Clone, Copy, Debug, PartialEq, Eq, Structural)]
pub struct BatteryStats {
    /// Power draw in picowatts: µA × µV, exactly.
    pub power_draw_picowatts: u128,
    /// Whole minutes until empty at the present draw; absent when the
    /// battery is not discharging or draws no current, meaning unknown.
    pub time_remaining_mins: Option<u32>,
}

/// Minutes until empty at the present draw, truncated, saturating at the
/// largest `u32`; known only while discharging with a non-zero current.
pub open spec fn spec_time_remaining(s: BatteryStatus) -> Option<u32> {
    if s.status == OperatingState::Discharging && s.current_now > 0 {
        let m = (s.charge_now as nat * 60) / (s.current_now as nat);
        if m > u32::MAX as nat {
            Some(u32::MAX)
        } else {
            Some(m as u32)
        }
    } else {
        None
    }
}

/// The metrics of a sample.
pub open spec fn spec_battery_stats(s: BatteryStatus) -> BatteryStats {
    BatteryStats {
        power_draw_picowatts: (s.current_now as nat * s.voltage_now as nat) as u128,
        time_remaining_mins: spec_time_remaining(s),
    }
}

/// Derives the power draw and the time remaining from a sample.
pub fn calculate_battery_stats(status: &BatteryStatus) -> (r: BatteryStats)
    ensures
        r == spec_battery_stats(*status),
        r.power_draw_picowatts as nat == status.current_now as nat * status.voltage_now as nat,
        status.current_now == 0 || status.status != OperatingState::Discharging
            ==> r.time_remaining_mins is None,
{
    let current = status.current_now as u128;
    let voltage = status.voltage_now as u128;
    assert(current * voltage <= u128::MAX) by (nonlinear_arith)
        requires
            current <= u64::MAX,
            voltage <= u64::MAX,
    ;
    let power_draw_picowatts = current * voltage;
    let time_remaining_mins = if status.status == OperatingState::Discharging
        && status.current_now > 0 {
        let minutes = (status.charge_now as u128 * 60) / current;
        if minutes > u32::MAX as u128 {
            Some(u32::MAX)
        } else {
            Some(minutes as u32)
        }
    } else {
        None
    };
    BatteryStats { power_draw_picowatts, time_remaining_mins }
}

} // verus!
