use vstd::prelude::*;

verus! {

/// Charge level of a full pack, in hundredths of a percent.
pub const FULL_CENTI: u16 = 10000;

/// The state that the operating system reports for a battery.
#[derive(Clone, Copy, Debug, PartialEq, Eq, Structural)]
pub enum PowerState {
    Unknown,
    Charging,
    Discharging,
    Empty,
    Full,
}

impl PowerState {
    /// The pack takes charge.
    pub open spec fn spec_is_charging(self) -> bool {
        self == PowerState::Charging
    }

    /// The machine runs on external power: charging, or holding a full pack.
    pub open spec fn spec_is_plugged(self) -> bool {
        self == PowerState::Charging || self == PowerState::Full
    }

    pub fn is_charging(&self) -> (r: bool)
        ensures
            r == self.spec_is_charging(),
    {
        matches!(self, PowerState::Charging)
    }

    pub fn is_plugged(&self) -> (r: bool)
        ensures
            r == self.spec_is_plugged(),
    {
        match self {
            PowerState::Charging => true,
            PowerState::Full => true,
            _ => false,
        }
    }
}

/// One reading of the primary battery.
///
/// `percent_exact_centi` is the exact state of charge in hundredths of a
/// percent (0 to 10000); `percent` is the rounded level that the status line
/// shows.
#[derive(Clone, Copy, Debug, PartialEq, Eq, Structural)]
pub struct BatteryStatus {
    pub percent: u8,
    pub percent_exact_centi: u16,
    pub is_charging: bool,
    pub is_plugged: bool,
    pub is_full: bool,
    pub time_remaining_sec: Option<u64>,
}

impl BatteryStatus {
    /// The values of a reading lie in their ranges.
    pub open spec fn well_formed(self) -> bool {
        self.percent <= 100 && self.percent_exact_centi <= FULL_CENTI
    }
}

/// The reading reported when no battery can be read: empty, on battery power.
pub open spec fn spec_empty_status() -> BatteryStatus {
    BatteryStatus {
        percent: 0,
        percent_exact_centi: 0,
        is_charging: false,
        is_plugged: false,
        is_full: false,
        time_remaining_sec: None,
    }
}

pub fn empty_status() -> (s: BatteryStatus)
    ensures
        s == spec_empty_status(),
{
    BatteryStatus {
        percent: 0,
        percent_exact_centi: 0,
        is_charging: false,
        is_plugged: false,
        is_full: false,
        time_remaining_sec: None,
    }
}

pub open spec fn min_int(a: int, b: int) -> int {
    if a <= b { a } else { b }
}

/// The reading built from what the operating system reports for the first
/// battery: the rounded level, the exact level in hundredths, the state, and
/// the time to empty in seconds. Levels above a full pack count as full; the
/// time to empty is kept only while the pack discharges.
pub open spec fn spec_battery_status(
    level: u8,
    exact_centi: u16,
    state: PowerState,
    time_to_empty_sec: Option<u64>,
) -> BatteryStatus {
    BatteryStatus {
        percent: min_int(level as int, 100) as u8,
        percent_exact_centi: min_int(exact_centi as int, FULL_CENTI as int) as u16,
        is_charging: state.spec_is_charging(),
        is_plugged: state.spec_is_plugged(),
        is_full: state == PowerState::Full,
        time_remaining_sec: if state == PowerState::Discharging {
            time_to_empty_sec
        } else {
            None
        },
    }
}

pub fn battery_status(
    level: u8,
    exact_centi: u16,
    state: PowerState,
    time_to_empty_sec: Option<u64>,
) -> (s: BatteryStatus)
    ensures
        s == spec_battery_status(level, exact_centi, state, time_to_empty_sec),
        s.well_formed(),
{
    let percent = if level > 100 { 100 } else { level };
    let percent_exact_centi = if exact_centi > FULL_CENTI { FULL_CENTI } else { exact_centi };
    let time_remaining_sec = match state {
        PowerState::Discharging => time_to_empty_sec,
        _ => None,
    };
    BatteryStatus {
        percent,
        percent_exact_centi,
        is_charging: state.is_charging(),
        is_plugged: state.is_plugged(),
        is_full: matches!(state, PowerState::Full),
        time_remaining_sec,
    }
}

/// The pack counts as full: on external power, and either the rounded level
/// shows 100% (even while the system still reports trickle charging), or it
/// no longer charges and its exact level is at least 99.5%, or it reports full
/// at a rounded 99%.
pub open spec fn spec_is_battery_full(s: BatteryStatus) -> bool {
    &&& s.is_plugged
    &&& (s.percent >= 100 || (!s.is_charging && (s.percent_exact_centi >= 9990 || (s.percent
        >= 99 && s.is_full) || s.percent_exact_centi >= 9950)))
}

/// The pack is in its final top-off: exactly at least 98.5%, or shown as 99%.
pub open spec fn spec_is_topping_off(s: BatteryStatus) -> bool {
    s.percent_exact_centi >= 9850 || s.percent >= 99
}

pub fn is_battery_full(status: &BatteryStatus) -> (r: bool)
    ensures
        r == spec_is_battery_full(*status),
{
    if !status.is_plugged {
        return false;
    }
    if status.percent >= 100 {
        return true;
    }
    !status.is_charging && (status.percent_exact_centi >= 9990 || (status.percent >= 99
        && status.is_full) || status.percent_exact_centi >= 9950)
}

pub fn is_topping_off(status: &BatteryStatus) -> (r: bool)
    ensures
        r == spec_is_topping_off(*status),
{
    status.percent_exact_centi >= 9850 || status.percent >= 99
}

/// Before the unrestricted top-off is asserted, the plain charge-to-full
/// limits are asserted too when the pack sits on external power without
/// charging below 99.95%.
pub open spec fn spec_needs_full_charge_reassert(s: BatteryStatus) -> bool {
    s.is_plugged && !s.is_charging && s.percent_exact_centi < 9995
}

pub fn needs_full_charge_reassert(status: &BatteryStatus) -> (r: bool)
    ensures
        r == spec_needs_full_charge_reassert(*status),
{
    status.is_plugged && !status.is_charging && status.percent_exact_centi < 9995
}

/// A pack that counts as full is on external power and in its top-off.
pub proof fn lemma_full_implies_topping_off(s: BatteryStatus)
    requires
        spec_is_battery_full(s),
    ensures
        s.is_plugged,
        spec_is_topping_off(s),
{
}

/// The text that a report shows for a battery state.
pub open spec fn spec_state_text(state: PowerState) -> Seq<char> {
    match state {
        PowerState::Unknown => "Unknown"@,
        PowerState::Charging => "Charging"@,
        PowerState::Discharging => "Discharging"@,
        PowerState::Empty => "Empty"@,
        PowerState::Full => "Full"@,
    }
}

pub fn format_state(state: PowerState) -> (s: String)
    ensures
        s@ == spec_state_text(state),
{
    match state {
        PowerState::Unknown => String::from_str("Unknown"),
        PowerState::Charging => String::from_str("Charging"),
        PowerState::Discharging => String::from_str("Discharging"),
        PowerState::Empty => String::from_str("Empty"),
        PowerState::Full => String::from_str("Full"),
    }
}

} // verus!
