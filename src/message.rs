//! The texts of the alerts that are delivered to the user.

use vstd::prelude::*;
use crate::alert::AlertLevel;
use crate::battery::BatteryStatus;
use crate::metrics::BatteryStats;
use crate::text::{append_decimal, decimal_text};

verus! {

/// How urgently the desktop should present a notification.
#[derive(Clone, Copy, Debug, PartialEq, Eq, Structural)]
pub enum Urgency {
    Normal,
    Critical,
}

impl Urgency {
    /// The urgency's name as notification tools spell it.
    pub fn as_str(&self) -> (r: &'static str)
        ensures
            *self == Urgency::Normal ==> r@ == "normal"@,
            *self == Urgency::Critical ==> r@ == "critical"@,
    {
        match self {
            Urgency::Normal => "normal",
            Urgency::Critical => "critical",
        }
    }
}

/// A notification ready to be delivered.
#[derive(Debug)]
pub struct Notification {
    pub title: String,
    pub body: String,
    pub urgency: Urgency,
}

/// Picowatts in a tenth of a watt.
pub const PICOWATTS_PER_TENTH_WATT: u128 = 100_000_000_000;

/// Minutes as hours and minutes (`2h 5m`), or minutes alone under an hour (`45m`).
pub open spec fn spec_time_text(minutes: nat) -> Seq<char> {
    if minutes / 60 > 0 {
        decimal_text(minutes / 60) + "h "@ + decimal_text(minutes % 60) + "m"@
    } else {
        decimal_text(minutes % 60) + "m"@
    }
}

/// Picowatts in tenths of a watt, rounded half up.
pub open spec fn spec_tenths_of_watt(picowatts: nat) -> nat {
    picowatts / PICOWATTS_PER_TENTH_WATT as nat + if picowatts % PICOWATTS_PER_TENTH_WATT as nat
        >= PICOWATTS_PER_TENTH_WATT as nat / 2 {
        1nat
    } else {
        0nat
    }
}

/// Picowatts as watts with one decimal (`7.5`).
pub open spec fn spec_watts_text(picowatts: nat) -> Seq<char> {
    let t = spec_tenths_of_watt(picowatts);
    decimal_text(t / 10) + "."@ + decimal_text(t % 10)
}

/// The body of a low-battery notification.
pub open spec fn spec_low_body(s: BatteryStatus, m: BatteryStats) -> Seq<char> {
    "Battery at "@ + decimal_text(s.capacity as nat) + "% - Please plug in your charger!"@
        + "\nPower draw: "@ + spec_watts_text(m.power_draw_picowatts as nat) + "W"@
        + match m.time_remaining_mins {
        Some(t) => " | Time left: ~"@ + spec_time_text(t as nat),
        None => Seq::<char>::empty(),
    }
}

/// The body of a critical-battery notification.
pub open spec fn spec_critical_body(s: BatteryStatus, m: BatteryStats) -> Seq<char> {
    "CRITICAL: Battery at "@ + decimal_text(s.capacity as nat)
        + "%! System will shutdown soon!"@ + "\nPower: "@ + spec_watts_text(
        m.power_draw_picowatts as nat,
    ) + "W"@ + match m.time_remaining_mins {
        Some(t) => " | ~"@ + spec_time_text(t as nat) + " remaining"@,
        None => Seq::<char>::empty(),
    }
}

fn append_time(out: &mut String, minutes: u32)
    ensures
        final(out)@ == old(out)@ + spec_time_text(minutes as nat),
{
    let hours = minutes / 60;
    let mins = minutes % 60;
    if hours > 0 {
        append_decimal(out, hours as u128);
        out.append("h ");
        append_decimal(out, mins as u128);
        out.append("m");
    } else {
        append_decimal(out, mins as u128);
        out.append("m");
    }
}

/// Minutes as hours and minutes (`2h 5m`), or minutes alone under an hour (`45m`).
pub fn format_time_remaining(minutes: u32) -> (r: String)
    ensures
        r@ == spec_time_text(minutes as nat),
{
    let mut out = String::new();
    append_time(&mut out, minutes);
    out
}

fn append_watts(out: &mut String, picowatts: u128)
    ensures
        final(out)@ == old(out)@ + spec_watts_text(picowatts as nat),
{
    let mut tenths = picowatts / PICOWATTS_PER_TENTH_WATT;
    if picowatts % PICOWATTS_PER_TENTH_WATT >= PICOWATTS_PER_TENTH_WATT / 2 {
        tenths = tenths + 1;
    }
    append_decimal(out, tenths / 10);
    out.append(".");
    append_decimal(out, tenths % 10);
}

/// A power draw in picowatts as watts with one decimal (`7.5`).
pub fn format_watts(picowatts: u128) -> (r: String)
    ensures
        r@ == spec_watts_text(picowatts as nat),
{
    let mut out = String::new();
    append_watts(&mut out, picowatts);
    out
}

/// The notification that asks the user to plug in the charger.
pub fn low_battery_notification(status: &BatteryStatus, stats: &BatteryStats) -> (r:
    Notification)
    ensures
        r.title@ == "Low Battery Warning"@,
        r.body@ == spec_low_body(*status, *stats),
        r.urgency == Urgency::Critical,
{
    let mut body = String::new();
    body.append("Battery at ");
    append_decimal(&mut body, status.capacity as u128);
    body.append("% - Please plug in your charger!");
    body.append("\nPower draw: ");
    append_watts(&mut body, stats.power_draw_picowatts);
    body.append("W");
    let ghost before = body@;
    match stats.time_remaining_mins {
        Some(mins) => {
            body.append(" | Time left: ~");
            append_time(&mut body, mins);
        },
        None => {
            assert(body@ == before + Seq::<char>::empty());
        },
    }
    Notification {
        title: "Low Battery Warning".to_owned(),
        body,
        urgency: Urgency::Critical,
    }
}

/// The notification that warns of an imminent shutdown.
pub fn critical_battery_notification(status: &BatteryStatus, stats: &BatteryStats) -> (r:
    Notification)
    ensures
        r.title@ == "CRITICAL Battery Level"@,
        r.body@ == spec_critical_body(*status, *stats),
        r.urgency == Urgency::Critical,
{
    let mut body = String::new();
    body.append("CRITICAL: Battery at ");
    append_decimal(&mut body, status.capacity as u128);
    body.append("%! System will shutdown soon!");
    body.append("\nPower: ");
    append_watts(&mut body, stats.power_draw_picowatts);
    body.append("W");
    let ghost before = body@;
    match stats.time_remaining_mins {
        Some(mins) => {
            body.append(" | ~");
            append_time(&mut body, mins);
            body.append(" remaining");
        },
        None => {
            assert(body@ == before + Seq::<char>::empty());
        },
    }
    Notification {
        title: "CRITICAL Battery Level".to_owned(),
        body,
        urgency: Urgency::Critical,
    }
}

/// Whether `r` is the notification that `alert` calls for: none when
/// silent, else the low or critical notification for the sample.
pub open spec fn spec_notification_for(
    alert: AlertLevel,
    s: BatteryStatus,
    m: BatteryStats,
    r: Option<Notification>,
) -> bool {
    match alert {
        AlertLevel::Silent => r is None,
        AlertLevel::Low => r matches Some(n) && n.title@ == "Low Battery Warning"@ && n.body@
            == spec_low_body(s, m) && n.urgency == Urgency::Critical,
        AlertLevel::Critical => r matches Some(n) && n.title@ == "CRITICAL Battery Level"@
            && n.body@ == spec_critical_body(s, m) && n.urgency == Urgency::Critical,
    }
}

/// The notification for an alert level, if it calls for one.
pub fn alert_notification(alert: AlertLevel, status: &BatteryStatus, stats: &BatteryStats) -> (r:
    Option<Notification>)
    ensures
        spec_notification_for(alert, *status, *stats, r),
{
    match alert {
        AlertLevel::Silent => None,
        AlertLevel::Low => Some(low_battery_notification(status, stats)),
        AlertLevel::Critical => Some(critical_battery_notification(status, stats)),
    }
}

} // verus!
