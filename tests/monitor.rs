use battery_monitor::{
    alert_notification, calculate_battery_stats, critical_battery_notification, decimal_string,
    format_time_remaining, format_watts, keep_waiting, low_battery_notification, parse_unsigned,
    poll_cycle, read_battery_status, read_sysfs_bool, read_sysfs_status, read_sysfs_u64,
    read_sysfs_u8, start_monitor, update_notification_state, AlertLevel, BatteryStatus,
    NotificationState, OperatingState, ReadError, SysfsReadings, Urgency, POLL_INTERVAL_SECS,
};

fn sample(capacity: u8, status: OperatingState, ac_online: bool) -> BatteryStatus {
    BatteryStatus {
        capacity,
        status,
        charge_now: 2_000_000,
        charge_full: 4_000_000,
        current_now: 1_000_000,
        voltage_now: 12_000_000,
        ac_online,
    }
}

fn raised() -> NotificationState {
    NotificationState { low_battery_notified: true, critical_battery_notified: true }
}

fn readings(capacity: &str, status: &str) -> SysfsReadings {
    SysfsReadings {
        battery_present: true,
        capacity: Ok(capacity.to_string()),
        status: Ok(status.to_string()),
        charge_now: Ok("2000000\n".to_string()),
        charge_full: Ok("4000000\n".to_string()),
        current_now: Ok("1000000\n".to_string()),
        voltage_now: Ok("12000000\n".to_string()),
        adapter_online: Some(Ok("0\n".to_string())),
    }
}

#[test]
fn clears_on_external_power_or_high_charge() {
    for cap in [15u8, 16, 50, 100] {
        let mut st = raised();
        let d = update_notification_state(&sample(cap, OperatingState::Discharging, false), &mut st);
        assert_eq!(d.alert, AlertLevel::Silent);
        assert!(d.recovered);
        assert_eq!(st, NotificationState::new());
    }
    for cap in [0u8, 3, 9, 14] {
        let mut st = raised();
        let d = update_notification_state(&sample(cap, OperatingState::Charging, true), &mut st);
        assert_eq!(d.alert, AlertLevel::Silent);
        assert_eq!(st, NotificationState::new());
    }
    let mut st = NotificationState::new();
    let d = update_notification_state(&sample(80, OperatingState::Full, true), &mut st);
    assert!(!d.recovered);
}

#[test]
fn critical_fires_on_every_poll() {
    for cap in [0u8, 1, 5] {
        let mut st = NotificationState::new();
        for _ in 0..3 {
            let d =
                update_notification_state(&sample(cap, OperatingState::Discharging, false), &mut st);
            assert_eq!(d.alert, AlertLevel::Critical);
            assert!(st.critical_battery_notified);
        }
    }
}

#[test]
fn low_fires_and_leaves_critical_flag() {
    for cap in [6u8, 7, 9] {
        let mut st = NotificationState::new();
        let d = update_notification_state(&sample(cap, OperatingState::Discharging, false), &mut st);
        assert_eq!(d.alert, AlertLevel::Low);
        assert!(st.low_battery_notified);
        assert!(!st.critical_battery_notified);
        let mut st = NotificationState { low_battery_notified: false, critical_battery_notified: true };
        let d = update_notification_state(&sample(cap, OperatingState::Discharging, false), &mut st);
        assert_eq!(d.alert, AlertLevel::Low);
        assert!(st.critical_battery_notified);
    }
}

#[test]
fn no_alert_when_not_discharging() {
    for status in [OperatingState::Charging, OperatingState::NotCharging, OperatingState::Unknown] {
        let mut st = NotificationState::new();
        let d = update_notification_state(&sample(3, status, false), &mut st);
        assert_eq!(d.alert, AlertLevel::Silent);
        assert_eq!(st, NotificationState::new());
    }
    let mut st = NotificationState::new();
    let d = update_notification_state(&sample(12, OperatingState::Discharging, false), &mut st);
    assert_eq!(d.alert, AlertLevel::Silent);
}

#[test]
fn deciding_twice_gives_same_alert() {
    for cap in [2u8, 8, 12, 40] {
        let s = sample(cap, OperatingState::Discharging, false);
        let mut st = NotificationState::new();
        let first = update_notification_state(&s, &mut st);
        let second = update_notification_state(&s, &mut st);
        assert_eq!(first.alert, second.alert);
    }
}

#[test]
fn time_remaining_needs_current() {
    let mut s = sample(50, OperatingState::Discharging, false);
    s.current_now = 0;
    assert_eq!(calculate_battery_stats(&s).time_remaining_mins, None);
    s.current_now = 1_000_000;
    s.charge_now = 2_000_000;
    assert_eq!(calculate_battery_stats(&s).time_remaining_mins, Some(120));
    let s = sample(50, OperatingState::Charging, true);
    assert_eq!(calculate_battery_stats(&s).time_remaining_mins, None);
}

#[test]
fn time_remaining_truncates_and_saturates() {
    let mut s = sample(50, OperatingState::Discharging, false);
    s.charge_now = 1_000_000;
    s.current_now = 3_000_000;
    assert_eq!(calculate_battery_stats(&s).time_remaining_mins, Some(20));
    s.charge_now = 999_999;
    assert_eq!(calculate_battery_stats(&s).time_remaining_mins, Some(19));
    s.charge_now = u64::MAX;
    s.current_now = 1;
    assert_eq!(calculate_battery_stats(&s).time_remaining_mins, Some(u32::MAX));
}

#[test]
fn power_draw_is_current_times_voltage() {
    let s = sample(50, OperatingState::Discharging, false);
    let m = calculate_battery_stats(&s);
    assert_eq!(m.power_draw_picowatts, 12_000_000_000_000);
    assert_eq!(format_watts(m.power_draw_picowatts), "12.0");
    assert_eq!(format_watts(7_549_999_999_999), "7.5");
    assert_eq!(format_watts(7_550_000_000_000), "7.6");
    assert_eq!(format_watts(0), "0.0");
    let mut s = s;
    s.current_now = u64::MAX;
    s.voltage_now = u64::MAX;
    let m = calculate_battery_stats(&s);
    assert_eq!(m.power_draw_picowatts, (u64::MAX as u128) * (u64::MAX as u128));
}

#[test]
fn scenario_critical_then_clear_then_low() {
    let mut st = NotificationState::new();
    let s = BatteryStatus { capacity: 3, ..sample(3, OperatingState::Discharging, false) };
    let d = update_notification_state(&s, &mut st);
    assert_eq!(d.alert, AlertLevel::Critical);
    let n = alert_notification(d.alert, &s, &calculate_battery_stats(&s)).unwrap();
    assert!(n.body.contains("3%"));
    assert_eq!(n.title, "CRITICAL Battery Level");

    let s = sample(20, OperatingState::Discharging, false);
    let d = update_notification_state(&s, &mut st);
    assert_eq!(d.alert, AlertLevel::Silent);
    assert!(d.recovered);
    assert_eq!(st, NotificationState::new());
    assert!(alert_notification(d.alert, &s, &calculate_battery_stats(&s)).is_none());

    let s = sample(7, OperatingState::Discharging, false);
    let d = update_notification_state(&s, &mut st);
    assert_eq!(d.alert, AlertLevel::Low);
    assert!(st.low_battery_notified);
    assert!(!st.critical_battery_notified);
}

#[test]
fn scenario_external_power_short_circuits() {
    for mut st in [NotificationState::new(), raised()] {
        let d = update_notification_state(&sample(4, OperatingState::Discharging, true), &mut st);
        assert_eq!(d.alert, AlertLevel::Silent);
        assert_eq!(st, NotificationState::new());
    }
}

#[test]
fn notification_texts() {
    let s = sample(8, OperatingState::Discharging, false);
    let m = calculate_battery_stats(&s);
    let n = low_battery_notification(&s, &m);
    assert_eq!(n.title, "Low Battery Warning");
    assert_eq!(
        n.body,
        "Battery at 8% - Please plug in your charger!\nPower draw: 12.0W | Time left: ~2h 0m"
    );
    assert_eq!(n.urgency, Urgency::Critical);
    assert_eq!(n.urgency.as_str(), "critical");
    let s = sample(4, OperatingState::Discharging, false);
    let m = calculate_battery_stats(&s);
    let n = critical_battery_notification(&s, &m);
    assert_eq!(
        n.body,
        "CRITICAL: Battery at 4%! System will shutdown soon!\nPower: 12.0W | ~2h 0m remaining"
    );
    let mut s = s;
    s.current_now = 0;
    let m = calculate_battery_stats(&s);
    let n = critical_battery_notification(&s, &m);
    assert_eq!(n.body, "CRITICAL: Battery at 4%! System will shutdown soon!\nPower: 0.0W");
    assert_eq!(Urgency::Normal.as_str(), "normal");
}

#[test]
fn time_text() {
    assert_eq!(format_time_remaining(0), "0m");
    assert_eq!(format_time_remaining(45), "45m");
    assert_eq!(format_time_remaining(60), "1h 0m");
    assert_eq!(format_time_remaining(125), "2h 5m");
    assert_eq!(decimal_string(1234567890), "1234567890");
}

#[test]
fn unsigned_attributes() {
    assert_eq!(read_sysfs_u64(" 42\n"), Ok(42));
    assert_eq!(read_sysfs_u64("+7"), Ok(7));
    assert_eq!(read_sysfs_u64("18446744073709551615"), Ok(u64::MAX));
    assert_eq!(read_sysfs_u64("18446744073709551616"), Err(ReadError::InvalidData));
    assert_eq!(read_sysfs_u64("-1"), Err(ReadError::InvalidData));
    assert_eq!(read_sysfs_u64(""), Err(ReadError::InvalidData));
    assert_eq!(read_sysfs_u64("+"), Err(ReadError::InvalidData));
    assert_eq!(read_sysfs_u64("4 2"), Err(ReadError::InvalidData));
    assert_eq!(read_sysfs_u64("٤٢"), Err(ReadError::InvalidData));
    assert_eq!(read_sysfs_u8("255\n"), Ok(255));
    assert_eq!(read_sysfs_u8("256\n"), Err(ReadError::InvalidData));
    assert_eq!(parse_unsigned("007", 10), Some(7));
    assert_eq!(parse_unsigned("11", 10), None);
}

#[test]
fn flag_and_status_attributes() {
    assert!(read_sysfs_bool("1\n"));
    assert!(!read_sysfs_bool("0\n"));
    assert!(!read_sysfs_bool("11"));
    assert_eq!(read_sysfs_status("Discharging\n"), OperatingState::Discharging);
    assert_eq!(read_sysfs_status("Charging\n"), OperatingState::Charging);
    assert_eq!(read_sysfs_status("Full"), OperatingState::Full);
    assert_eq!(read_sysfs_status("Not charging\n"), OperatingState::NotCharging);
    assert_eq!(read_sysfs_status("Unknown\n"), OperatingState::Unknown);
}

#[test]
fn battery_status_from_readings() {
    let s = read_battery_status(&readings("57\n", "Discharging\n")).unwrap();
    assert_eq!(s.capacity, 57);
    assert_eq!(s.status, OperatingState::Discharging);
    assert_eq!(s.charge_now, 2_000_000);
    assert_eq!(s.charge_full, 4_000_000);
    assert_eq!(s.voltage_now, 12_000_000);
    assert!(!s.ac_online);

    let mut r = readings("57\n", "Charging\n");
    r.adapter_online = None;
    assert!(read_battery_status(&r).unwrap().ac_online);
    let mut r = readings("57\n", "Discharging\n");
    r.adapter_online = None;
    assert!(!read_battery_status(&r).unwrap().ac_online);
    let mut r = readings("57\n", "Charging\n");
    r.adapter_online = Some(Err(ReadError::Unreadable));
    assert!(!read_battery_status(&r).unwrap().ac_online);
    let mut r = readings("57\n", "Discharging\n");
    r.adapter_online = Some(Ok("1\n".to_string()));
    assert!(read_battery_status(&r).unwrap().ac_online);
}

#[test]
fn battery_status_errors() {
    let mut r = readings("57\n", "Discharging\n");
    r.battery_present = false;
    assert_eq!(read_battery_status(&r), Err(ReadError::NotFound));
    assert_eq!(read_battery_status(&readings("abc", "Full")), Err(ReadError::InvalidData));
    let mut r = readings("57\n", "Discharging\n");
    r.voltage_now = Err(ReadError::Unreadable);
    r.current_now = Ok("x".to_string());
    assert_eq!(read_battery_status(&r), Err(ReadError::InvalidData));
    let mut r = readings("57\n", "Discharging\n");
    r.status = Err(ReadError::NotFound);
    assert_eq!(read_battery_status(&r), Err(ReadError::NotFound));
}

#[test]
fn poll_cycle_decides_and_keeps_state_on_failure() {
    let mut st = NotificationState::new();
    let c = poll_cycle(&readings("3\n", "Discharging\n"), &mut st).unwrap();
    assert_eq!(c.decision.alert, AlertLevel::Critical);
    assert_eq!(c.stats.time_remaining_mins, Some(120));
    assert!(c.notification.unwrap().body.contains("3%"));
    assert!(st.critical_battery_notified);
    let before = st;
    assert_eq!(poll_cycle(&readings("bad", "Discharging\n"), &mut st).err(), Some(ReadError::InvalidData));
    assert_eq!(st, before);
}

#[test]
fn startup_and_waiting() {
    assert_eq!(start_monitor(false), Err(ReadError::NotFound));
    assert_eq!(start_monitor(true), Ok(NotificationState::new()));
    assert_eq!(NotificationState::default(), NotificationState::new());
    assert!(keep_waiting(0, false));
    assert!(keep_waiting(POLL_INTERVAL_SECS - 1, false));
    assert!(!keep_waiting(POLL_INTERVAL_SECS, false));
    assert!(!keep_waiting(3, true));
}
