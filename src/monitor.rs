//! The decisions of the polling loop. The loop itself, which reads the
//! attribute files, delivers notifications and sleeps, runs outside the
//! library and defers to these functions.

use vstd::prelude::*;
use crate::alert::{
    spec_cleared, spec_decide, update_notification_state, Decision, NotificationState,
};
use crate::battery::BatteryStatus;
use crate::message::{alert_notification, spec_notification_for, Notification};
use crate::metrics::{calculate_battery_stats, spec_battery_stats, BatteryStats};
use crate::sysfs::{read_battery_status, spec_battery_status, ReadError, SysfsReadings};

verus! {

/// Seconds between two samples.
pub const POLL_INTERVAL_SECS: u64 = 60;

/// Starts monitoring: refused when the battery device is absent, else no
/// alert has been raised yet.
pub fn start_monitor(battery_present: bool) -> (r: Result<NotificationState, ReadError>)
    ensures
        !battery_present ==> r == Err::<NotificationState, ReadError>(ReadError::NotFound),
        battery_present ==> r == Ok::<NotificationState, ReadError>(spec_cleared()),
{
    if battery_present {
        Ok(NotificationState::new())
    } else {
        Err(ReadError::NotFound)
    }
}

/// What one poll found and decided.
#[derive(Debug)]
pub struct Cycle {
    pub status: BatteryStatus,
    pub stats: BatteryStats,
    pub decision: Decision,
    /// The notification to deliver, if any.
    pub notification: Option<Notification>,
}

/// One poll: builds the sample, derives its metrics, decides and records
/// the alert, and prepares its notification. A sample that cannot be built
/// is reported and leaves the alert state as it was.
pub fn poll_cycle(readings: &SysfsReadings, state: &mut NotificationState) -> (r: Result<
    Cycle,
    ReadError,
>)
    ensures
        match spec_battery_status(*readings) {
            Err(e) => r matches Err(e2) && e2 == e && *final(state) == *old(state),
            Ok(s) => r matches Ok(c) && c.status == s && c.stats == spec_battery_stats(s) && (
            *final(state),
            c.decision,
            ) == spec_decide(s, *old(state)) && spec_notification_for(
                c.decision.alert,
                s,
                c.stats,
                c.notification,
            ),
        },
{
    let status = match read_battery_status(readings) {
        Ok(s) => s,
        Err(e) => return Err(e),
    };
    let stats = calculate_battery_stats(&status);
    let decision = update_notification_state(&status, state);
    let notification = alert_notification(decision.alert, &status, &stats);
    Ok(Cycle { status, stats, decision, notification })
}

/// Whether the wait between two polls goes on after `elapsed_secs` seconds:
/// until the interval is over or a shutdown is requested.
pub fn keep_waiting(elapsed_secs: u64, shutdown_requested: bool) -> (r: bool)
    ensures
        r == (!shutdown_requested && elapsed_secs < POLL_INTERVAL_SECS),
{
    !shutdown_requested && elapsed_secs < POLL_INTERVAL_SECS
}

} // verus!
