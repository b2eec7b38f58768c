//! The alert state machine: from a sample and the alerts already raised,
//! which alert to raise now.

use vstd::prelude::*;
use crate::battery::{spec_is_discharging, BatteryStatus};

verus! {

/// At or below this charge level, in percent, a low-battery alert is raised.
pub const LOW_BATTERY_THRESHOLD: u8 = 9;

/// At or below this charge level, in percent, a critical alert is raised.
pub const CRITICAL_BATTERY_THRESHOLD: u8 = 5;

/// At or above this charge level, in percent, raised alerts are cleared.
pub const RESET_THRESHOLD: u8 = 15;

/// Which alerts have been raised and not yet cleared.
#[derive(Clone, Copy, Debug, PartialEq, Eq, Structural)]
pub struct NotificationState {
    pub low_battery_notified: bool,
    pub critical_battery_notified: bool,
}

/// No alert raised.
pub open spec fn spec_cleared() -> NotificationState {
    NotificationState { low_battery_notified: false, critical_battery_notified: false }
}

impl NotificationState {
    /// A state in which no alert has been raised.
    pub fn new() -> (r: NotificationState)
        ensures
            r == spec_cleared(),
    {
        NotificationState { low_battery_notified: false, critical_battery_notified: false }
    }

    /// Whether any alert is raised.
    pub fn any_raised(&self) -> (r: bool)
        ensures
            r == (self.low_battery_notified || self.critical_battery_notified),
    {
        self.low_battery_notified || self.critical_battery_notified
    }
}

impl Default for NotificationState {
    fn default() -> (r: NotificationState)
        ensures
            r == spec_cleared(),
    {
        NotificationState::new()
    }
}

/// The alert to deliver for one sample.
#[derive(Clone, Copy, Debug, PartialEq, Eq, Structural)]
pub enum AlertLevel {
    Silent,
    Low,
    Critical,
}

/// The outcome of one decision.
#[derive(Clone, Copy, Debug, PartialEq, Eq, Structural)]
pub struct Decision {
    pub alert: AlertLevel,
    /// Whether raised alerts were cleared by this sample.
    pub recovered: bool,
}

/// Whether a sample clears raised alerts: external power, or enough charge.
pub open spec fn spec_clears(s: BatteryStatus) -> bool {
    s.ac_online || s.capacity >= RESET_THRESHOLD
}

/// The next state and the decision for sample `s` in state `st`.
pub open spec fn spec_decide(s: BatteryStatus, st: NotificationState) -> (
    NotificationState,
    Decision,
) {
    if spec_clears(s) {
        (
            spec_cleared(),
            Decision {
                alert: AlertLevel::Silent,
                recovered: st.low_battery_notified || st.critical_battery_notified,
            },
        )
    } else if spec_is_discharging(s) && s.capacity <= CRITICAL_BATTERY_THRESHOLD {
        (
            NotificationState { critical_battery_notified: true, ..st },
            Decision { alert: AlertLevel::Critical, recovered: false },
        )
    } else if spec_is_discharging(s) && s.capacity <= LOW_BATTERY_THRESHOLD {
        (
            NotificationState { low_battery_notified: true, ..st },
            Decision { alert: AlertLevel::Low, recovered: false },
        )
    } else {
        (st, Decision { alert: AlertLevel::Silent, recovered: false })
    }
}

/// Decides which alert a sample raises and records it in `state`.
///
/// External power or a charge at the reset threshold clears both flags and
/// raises nothing. Otherwise, while discharging, a charge at or below the
/// critical threshold raises a critical alert, and one at or below the low
/// threshold a low alert, on every sample for which this holds. The flag is
/// recorded whether or not the alert is later delivered.
pub fn update_notification_state(status: &BatteryStatus, state: &mut NotificationState) -> (d:
    Decision)
    ensures
        (*final(state), d) == spec_decide(*status, *old(state)),
        spec_clears(*status) ==> d.alert == AlertLevel::Silent && *final(state) == spec_cleared(),
        spec_is_discharging(*status) && status.capacity <= CRITICAL_BATTERY_THRESHOLD ==> d.alert
            == AlertLevel::Critical && final(state).critical_battery_notified,
        spec_is_discharging(*status) && CRITICAL_BATTERY_THRESHOLD < status.capacity
            <= LOW_BATTERY_THRESHOLD ==> d.alert == AlertLevel::Low
            && final(state).low_battery_notified && final(state).critical_battery_notified
            == old(state).critical_battery_notified,
        !spec_is_discharging(*status) ==> d.alert == AlertLevel::Silent,
        old(state).low_battery_notified && !final(state).low_battery_notified
            ==> *final(state) == spec_cleared(),
        old(state).critical_battery_notified && !final(state).critical_battery_notified
            ==> *final(state) == spec_cleared(),
{
    if status.ac_online || status.capacity >= RESET_THRESHOLD {
        let recovered = state.any_raised();
        state.low_battery_notified = false;
        state.critical_battery_notified = false;
        return Decision { alert: AlertLevel::Silent, recovered };
    }
    let is_discharging = status.is_discharging();
    if is_discharging && status.capacity <= CRITICAL_BATTERY_THRESHOLD {
        state.critical_battery_notified = true;
        return Decision { alert: AlertLevel::Critical, recovered: false };
    }
    if is_discharging && status.capacity <= LOW_BATTERY_THRESHOLD {
        state.low_battery_notified = true;
        return Decision { alert: AlertLevel::Low, recovered: false };
    }
    Decision { alert: AlertLevel::Silent, recovered: false }
}

/// Deciding twice on the same sample, the second time in the state that the
/// first decision left, raises the same alert both times.
pub proof fn lemma_decision_repeats(s: BatteryStatus, st: NotificationState)
    ensures
        spec_decide(s, spec_decide(s, st).0).1.alert == spec_decide(s, st).1.alert,
        spec_decide(s, spec_decide(s, st).0).0 == spec_decide(s, st).0,
{
}

/// A critical alert is raised only by a discharging sample at or below the
/// critical threshold: a flag that the decision sets was either already set
/// or set by such a sample.
pub proof fn lemma_critical_flag_observed(s: BatteryStatus, st: NotificationState)
    ensures
        spec_decide(s, st).0.critical_battery_notified ==> st.critical_battery_notified || (
        spec_is_discharging(s) && s.capacity <= CRITICAL_BATTERY_THRESHOLD),
        spec_decide(s, st).0.low_battery_notified ==> st.low_battery_notified || (
        spec_is_discharging(s) && s.capacity <= LOW_BATTERY_THRESHOLD),
{
}

} // verus!
