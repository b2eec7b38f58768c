//! Battery monitoring core: reading power-supply attributes, deriving
//! power and time estimates, and deciding when to raise low or critical
//! battery alerts without losing track of what was already raised.

pub mod alert;
pub mod battery;
pub mod message;
pub mod metrics;
pub mod monitor;
pub mod sysfs;
pub mod text;

pub use alert::{
    update_notification_state, AlertLevel, Decision, NotificationState,
    CRITICAL_BATTERY_THRESHOLD, LOW_BATTERY_THRESHOLD, RESET_THRESHOLD,
};
pub use message::{
    alert_notification, critical_battery_notification, format_time_remaining, format_watts,
    low_battery_notification, Notification, Urgency,
};
pub use metrics::{calculate_battery_stats, BatteryStats};
pub use battery::{BatteryStatus, OperatingState};
pub use monitor::{keep_waiting, poll_cycle, start_monitor, Cycle, POLL_INTERVAL_SECS};
pub use sysfs::{
    parse_attribute, parse_flag, parse_operating_state, read_sysfs_bool, read_sysfs_status,
    read_battery_status, read_sysfs_u64, read_sysfs_u8, ReadError, SysfsReadings,
};
pub use text::{append_decimal, decimal_string, parse_unsigned};
