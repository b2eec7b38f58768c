//! Power-supply attributes as the kernel exposes them: one value per file,
//! as text. The files are read elsewhere; this module turns their contents
//! into a [`BatteryStatus`].

use vstd::prelude::*;
use crate::battery::{BatteryStatus, OperatingState};
use crate::text::{parse_unsigned, unsigned_value};

verus! {

/// Why a reading could not be taken.
#[derive(Clone, Copy, Debug, PartialEq, Eq, Structural)]
pub enum ReadError {
    /// The device, or one of its attribute files, is absent.
    NotFound,
    /// An attribute's text is not the value expected.
    InvalidData,
    /// An attribute file exists but could not be read.
    Unreadable,
}

/// `s` without leading and trailing whitespace.
pub uninterp spec fn trimmed(s: Seq<char>) -> Seq<char>;

/// Relies on `str::trim`: the text with leading and trailing whitespace
/// removed, which depends on the text alone.
#[verifier::external_body]
fn trim_text(s: &str) -> (r: &str)
    ensures
        r@ == trimmed(s@),
{
    s.trim()
}

/// Whether two texts are equal.
fn same_text(a: &str, b: &str) -> (r: bool)
    ensures
        r == (a@ == b@),
{
    a.to_owned() == b.to_owned()
}

/// The value of an already trimmed unsigned attribute no larger than `max`.
pub open spec fn spec_unsigned_attr(t: Seq<char>, max: nat) -> Result<nat, ReadError> {
    match unsigned_value(t, max) {
        Some(v) => Ok(v),
        None => Err(ReadError::InvalidData),
    }
}

/// The value of a 64-bit attribute file's contents.
pub open spec fn spec_sysfs_u64(contents: Seq<char>) -> Result<u64, ReadError> {
    match spec_unsigned_attr(trimmed(contents), u64::MAX as nat) {
        Ok(v) => Ok(v as u64),
        Err(e) => Err(e),
    }
}

/// The value of an 8-bit attribute file's contents.
pub open spec fn spec_sysfs_u8(contents: Seq<char>) -> Result<u8, ReadError> {
    match spec_unsigned_attr(trimmed(contents), u8::MAX as nat) {
        Ok(v) => Ok(v as u8),
        Err(e) => Err(e),
    }
}

/// The flag that a trimmed attribute holds: set exactly when it reads `1`.
pub open spec fn spec_flag(t: Seq<char>) -> bool {
    t == "1"@
}

/// The state that a trimmed status attribute names.
pub open spec fn spec_operating_state(t: Seq<char>) -> OperatingState {
    if t == "Charging"@ {
        OperatingState::Charging
    } else if t == "Discharging"@ {
        OperatingState::Discharging
    } else if t == "Full"@ {
        OperatingState::Full
    } else if t == "Not charging"@ {
        OperatingState::NotCharging
    } else {
        OperatingState::Unknown
    }
}

/// Parses the trimmed text of an unsigned attribute no larger than `max`.
pub fn parse_attribute(t: &str, max: u64) -> (r: Result<u64, ReadError>)
    ensures
        r matches Ok(v) ==> spec_unsigned_attr(t@, max as nat) == Ok::<nat, ReadError>(v as nat),
        r matches Err(e) ==> spec_unsigned_attr(t@, max as nat) == Err::<nat, ReadError>(e),
{
    match parse_unsigned(t, max) {
        Some(v) => Ok(v),
        None => Err(ReadError::InvalidData),
    }
}

/// Parses the contents of an attribute file holding a 64-bit value.
pub fn read_sysfs_u64(contents: &str) -> (r: Result<u64, ReadError>)
    ensures
        r == spec_sysfs_u64(contents@),
{
    parse_attribute(trim_text(contents), u64::MAX)
}

/// Parses the contents of an attribute file holding an 8-bit value.
pub fn read_sysfs_u8(contents: &str) -> (r: Result<u8, ReadError>)
    ensures
        r == spec_sysfs_u8(contents@),
{
    match parse_attribute(trim_text(contents), 255) {
        Ok(v) => Ok(v as u8),
        Err(e) => Err(e),
    }
}

/// Whether a trimmed attribute reads `1`.
pub fn parse_flag(t: &str) -> (r: bool)
    ensures
        r == spec_flag(t@),
{
    same_text(t, "1")
}

/// Parses the contents of an attribute file holding a flag: `1` is set,
/// anything else is not.
pub fn read_sysfs_bool(contents: &str) -> (r: bool)
    ensures
        r == spec_flag(trimmed(contents@)),
{
    parse_flag(trim_text(contents))
}

/// The state that a trimmed status attribute names.
pub fn parse_operating_state(t: &str) -> (r: OperatingState)
    ensures
        r == spec_operating_state(t@),
{
    if same_text(t, "Charging") {
        OperatingState::Charging
    } else if same_text(t, "Discharging") {
        OperatingState::Discharging
    } else if same_text(t, "Full") {
        OperatingState::Full
    } else if same_text(t, "Not charging") {
        OperatingState::NotCharging
    } else {
        OperatingState::Unknown
    }
}

/// Parses the contents of the status attribute file.
pub fn read_sysfs_status(contents: &str) -> (r: OperatingState)
    ensures
        r == spec_operating_state(trimmed(contents@)),
{
    parse_operating_state(trim_text(contents))
}

/// The raw contents of the power-supply attribute files for one sample,
/// or why each could not be read.
#[derive(Debug)]
pub struct SysfsReadings {
    /// Whether the battery device exists at all.
    pub battery_present: bool,
    pub capacity: Result<String, ReadError>,
    pub status: Result<String, ReadError>,
    pub charge_now: Result<String, ReadError>,
    pub charge_full: Result<String, ReadError>,
    pub current_now: Result<String, ReadError>,
    pub voltage_now: Result<String, ReadError>,
    /// The adapter's `online` attribute; `None` when there is no adapter device.
    pub adapter_online: Option<Result<String, ReadError>>,
}

/// A 64-bit attribute from a file that may not have been read.
pub open spec fn spec_field_u64(f: Result<String, ReadError>) -> Result<u64, ReadError> {
    match f {
        Ok(t) => spec_sysfs_u64(t@),
        Err(e) => Err(e),
    }
}

/// Whether external power is connected: the adapter's flag where there is an
/// adapter (unset if its file cannot be read), else whether the battery is
/// charging or full.
pub open spec fn spec_ac_online(adapter: Option<Result<String, ReadError>>, st: OperatingState) -> bool {
    match adapter {
        Some(Ok(t)) => spec_flag(trimmed(t@)),
        Some(Err(_)) => false,
        None => st == OperatingState::Charging || st == OperatingState::Full,
    }
}

/// The sample that a set of readings gives, or the first failure among them,
/// in the order: device, capacity, status, charge now, full charge, current,
/// voltage.
pub open spec fn spec_battery_status(r: SysfsReadings) -> Result<BatteryStatus, ReadError> {
    if !r.battery_present {
        Err(ReadError::NotFound)
    } else {
        match r.capacity {
            Err(e) => Err(e),
            Ok(c) => match spec_sysfs_u8(c@) {
                Err(e) => Err(e),
                Ok(capacity) => match r.status {
                    Err(e) => Err(e),
                    Ok(st) => match spec_field_u64(r.charge_now) {
                        Err(e) => Err(e),
                        Ok(charge_now) => match spec_field_u64(r.charge_full) {
                            Err(e) => Err(e),
                            Ok(charge_full) => match spec_field_u64(r.current_now) {
                                Err(e) => Err(e),
                                Ok(current_now) => match spec_field_u64(r.voltage_now) {
                                    Err(e) => Err(e),
                                    Ok(voltage_now) => {
                                        let status = spec_operating_state(trimmed(st@));
                                        Ok(
                                            BatteryStatus {
                                                capacity,
                                                status,
                                                charge_now,
                                                charge_full,
                                                current_now,
                                                voltage_now,
                                                ac_online: spec_ac_online(r.adapter_online, status),
                                            },
                                        )
                                    },
                                },
                            },
                        },
                    },
                },
            },
        }
    }
}

fn read_field_u64(f: &Result<String, ReadError>) -> (r: Result<u64, ReadError>)
    ensures
        r == spec_field_u64(*f),
{
    match f {
        Ok(t) => read_sysfs_u64(t.as_str()),
        Err(e) => Err(*e),
    }
}

/// Builds one sample of the battery from its attribute files.
pub fn read_battery_status(r: &SysfsReadings) -> (res: Result<BatteryStatus, ReadError>)
    ensures
        res == spec_battery_status(*r),
{
    if !r.battery_present {
        return Err(ReadError::NotFound);
    }
    let capacity = match &r.capacity {
        Ok(c) => match read_sysfs_u8(c.as_str()) {
            Ok(v) => v,
            Err(e) => return Err(e),
        },
        Err(e) => return Err(*e),
    };
    let status = match &r.status {
        Ok(st) => read_sysfs_status(st.as_str()),
        Err(e) => return Err(*e),
    };
    let charge_now = match read_field_u64(&r.charge_now) {
        Ok(v) => v,
        Err(e) => return Err(e),
    };
    let charge_full = match read_field_u64(&r.charge_full) {
        Ok(v) => v,
        Err(e) => return Err(e),
    };
    let current_now = match read_field_u64(&r.current_now) {
        Ok(v) => v,
        Err(e) => return Err(e),
    };
    let voltage_now = match read_field_u64(&r.voltage_now) {
        Ok(v) => v,
        Err(e) => return Err(e),
    };
    let ac_online = match &r.adapter_online {
        Some(Ok(t)) => read_sysfs_bool(t.as_str()),
        Some(Err(_)) => false,
        None => status == OperatingState::Charging || status == OperatingState::Full,
    };
    Ok(
        BatteryStatus {
            capacity,
            status,
            charge_now,
            charge_full,
            current_now,
            voltage_now,
            ac_online,
        },
    )
}

} // verus!
