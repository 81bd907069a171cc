use vstd::prelude::*;

use crate::backend::{is_user_initiated, step_pair, step_releases_limits, PolicyStep, ThresholdState};

verus! {

/// Device control code that selects the threshold mode.
pub const IOCTL_SELECT_MODE: u32 = 0x22261C;

/// Device control code that sets the start threshold.
pub const IOCTL_SET_START: u32 = 0x222630;

/// Device control code that sets the stop threshold.
pub const IOCTL_SET_STOP: u32 = 0x222638;

/// Mode value: thresholds of the first battery.
pub const THRESHOLD_MODE_BATTERY1: u32 = 0x00000101;

/// Mode value: thresholds of the second battery.
pub const THRESHOLD_MODE_BATTERY2: u32 = 0x00000201;

/// Mode value: the driver's automatic mode.
pub const AUTOMATIC_MODE: u32 = 0x00000000;

/// Prefix of a threshold value for the first battery.
pub const BATTERY1_PREFIX: u32 = 0x00000100;

/// Prefix of a threshold value for the second battery.
pub const BATTERY2_PREFIX: u32 = 0x00000200;

/// One device control request to the power-management driver: its code and
/// its 32-bit input.
#[derive(Clone, Copy, Debug, PartialEq, Eq, Structural)]
pub struct IoctlCommand {
    pub code: u32,
    pub value: u32,
}

/// A battery slot of the machine. The driver addresses a slot by its number
/// in the second byte of the mode and of each threshold value.
#[derive(Clone, Copy, Debug, PartialEq, Eq, Structural)]
pub enum BatterySlot {
    First,
    Second,
}

/// The mode value that selects a slot's thresholds.
pub open spec fn slot_mode(slot: BatterySlot) -> u32 {
    match slot {
        BatterySlot::First => THRESHOLD_MODE_BATTERY1,
        BatterySlot::Second => THRESHOLD_MODE_BATTERY2,
    }
}

/// The prefix of a slot's threshold values.
pub open spec fn slot_prefix(slot: BatterySlot) -> u32 {
    match slot {
        BatterySlot::First => BATTERY1_PREFIX,
        BatterySlot::Second => BATTERY2_PREFIX,
    }
}

/// A threshold value for a slot: its prefix with the percentage in the low
/// byte.
pub open spec fn slot_value(slot: BatterySlot, percent: u8) -> u32 {
    (slot_prefix(slot) + percent) as u32
}

fn mode_of(slot: BatterySlot) -> (m: u32)
    ensures
        m == slot_mode(slot),
{
    match slot {
        BatterySlot::First => THRESHOLD_MODE_BATTERY1,
        BatterySlot::Second => THRESHOLD_MODE_BATTERY2,
    }
}

fn prefix_of(slot: BatterySlot) -> (p: u32)
    ensures
        p == slot_prefix(slot),
{
    match slot {
        BatterySlot::First => BATTERY1_PREFIX,
        BatterySlot::Second => BATTERY2_PREFIX,
    }
}

fn value_for(slot: BatterySlot, percent: u8) -> (v: u32)
    ensures
        v == slot_value(slot, percent),
{
    let p = percent as u32;
    let prefix = prefix_of(slot);
    assert(0x100u32 | p == 0x100u32 + p) by (bit_vector)
        requires
            p < 256,
    ;
    assert(0x200u32 | p == 0x200u32 + p) by (bit_vector)
        requires
            p < 256,
    ;
    prefix | p
}

/// The highest stop threshold that the driver takes.
pub open spec fn driver_stop(stop: u8) -> u8 {
    if stop <= 99 { stop } else { 99 }
}

/// The requests, for one slot, that apply a threshold pair: select the slot's
/// threshold mode, then the stop (at most 99) before the start, as the driver
/// expects.
pub open spec fn slot_threshold_requests(slot: BatterySlot, start: u8, stop: u8) -> Seq<IoctlCommand> {
    seq![
        IoctlCommand { code: IOCTL_SELECT_MODE, value: slot_mode(slot) },
        IoctlCommand { code: IOCTL_SET_STOP, value: slot_value(slot, driver_stop(stop)) },
        IoctlCommand { code: IOCTL_SET_START, value: slot_value(slot, start) },
    ]
}

/// The requests, for one slot, that let the pack charge to full: no stop
/// ceiling, and charging resumes whenever the level is below 99%, the
/// driver's maximum.
pub open spec fn slot_charge_to_full_requests(slot: BatterySlot) -> Seq<IoctlCommand> {
    seq![
        IoctlCommand { code: IOCTL_SELECT_MODE, value: slot_mode(slot) },
        IoctlCommand { code: IOCTL_SET_STOP, value: slot_prefix(slot) },
        IoctlCommand { code: IOCTL_SET_START, value: slot_value(slot, 99) },
    ]
}

/// The requests, for one slot, that clear any latched limit.
pub open spec fn slot_release_requests(slot: BatterySlot) -> Seq<IoctlCommand> {
    seq![
        IoctlCommand { code: IOCTL_SELECT_MODE, value: slot_mode(slot) },
        IoctlCommand { code: IOCTL_SET_STOP, value: slot_prefix(slot) },
        IoctlCommand { code: IOCTL_SET_START, value: slot_prefix(slot) },
    ]
}

/// The first slot's requests, followed by the second slot's where a second
/// battery is present.
pub open spec fn for_present_slots(
    requests: spec_fn(BatterySlot) -> Seq<IoctlCommand>,
    second_battery_present: bool,
) -> Seq<IoctlCommand> {
    if second_battery_present {
        requests(BatterySlot::First) + requests(BatterySlot::Second)
    } else {
        requests(BatterySlot::First)
    }
}

pub open spec fn spec_apply_thresholds_ioctl(start: u8, stop: u8, second_battery_present: bool) -> Seq<IoctlCommand> {
    for_present_slots(|slot: BatterySlot| slot_threshold_requests(slot, start, stop), second_battery_present)
}

pub open spec fn spec_apply_charge_to_full_ioctl(second_battery_present: bool) -> Seq<IoctlCommand> {
    for_present_slots(|slot: BatterySlot| slot_charge_to_full_requests(slot), second_battery_present)
}

pub open spec fn spec_release_charge_limit_ioctl(second_battery_present: bool) -> Seq<IoctlCommand> {
    for_present_slots(|slot: BatterySlot| slot_release_requests(slot), second_battery_present).push(
        IoctlCommand { code: IOCTL_SELECT_MODE, value: AUTOMATIC_MODE },
    )
}

fn push_threshold_requests(c: &mut Vec<IoctlCommand>, slot: BatterySlot, start: u8, stop: u8)
    ensures
        final(c)@ == old(c)@ + slot_threshold_requests(slot, start, stop),
{
    let stop = if stop < 99 { stop } else { 99 };
    c.push(IoctlCommand { code: IOCTL_SELECT_MODE, value: mode_of(slot) });
    c.push(IoctlCommand { code: IOCTL_SET_STOP, value: value_for(slot, stop) });
    c.push(IoctlCommand { code: IOCTL_SET_START, value: value_for(slot, start) });
}

fn push_charge_to_full_requests(c: &mut Vec<IoctlCommand>, slot: BatterySlot)
    ensures
        final(c)@ == old(c)@ + slot_charge_to_full_requests(slot),
{
    c.push(IoctlCommand { code: IOCTL_SELECT_MODE, value: mode_of(slot) });
    c.push(IoctlCommand { code: IOCTL_SET_STOP, value: prefix_of(slot) });
    c.push(IoctlCommand { code: IOCTL_SET_START, value: value_for(slot, 99) });
}

fn push_release_requests(c: &mut Vec<IoctlCommand>, slot: BatterySlot)
    ensures
        final(c)@ == old(c)@ + slot_release_requests(slot),
{
    let prefix = prefix_of(slot);
    c.push(IoctlCommand { code: IOCTL_SELECT_MODE, value: mode_of(slot) });
    c.push(IoctlCommand { code: IOCTL_SET_STOP, value: prefix });
    c.push(IoctlCommand { code: IOCTL_SET_START, value: prefix });
}

/// The requests that apply a threshold pair to the first battery slot, and to
/// the second where a second battery is present.
pub fn apply_thresholds_ioctl(start: u8, stop: u8, second_battery_present: bool) -> (c: Vec<IoctlCommand>)
    ensures
        c@ == spec_apply_thresholds_ioctl(start, stop, second_battery_present),
{
    let mut c: Vec<IoctlCommand> = Vec::new();
    push_threshold_requests(&mut c, BatterySlot::First, start, stop);
    if second_battery_present {
        push_threshold_requests(&mut c, BatterySlot::Second, start, stop);
    }
    c
}

/// The requests that let every present battery charge to full.
pub fn apply_charge_to_full_ioctl(second_battery_present: bool) -> (c: Vec<IoctlCommand>)
    ensures
        c@ == spec_apply_charge_to_full_ioctl(second_battery_present),
{
    let mut c: Vec<IoctlCommand> = Vec::new();
    push_charge_to_full_requests(&mut c, BatterySlot::First);
    if second_battery_present {
        push_charge_to_full_requests(&mut c, BatterySlot::Second);
    }
    c
}

/// The requests that clear any latched limit of every present battery and
/// then hand the batteries back to the driver's automatic mode.
pub fn release_charge_limit_ioctl(second_battery_present: bool) -> (c: Vec<IoctlCommand>)
    ensures
        c@ == spec_release_charge_limit_ioctl(second_battery_present),
{
    let mut c: Vec<IoctlCommand> = Vec::new();
    push_release_requests(&mut c, BatterySlot::First);
    if second_battery_present {
        push_release_requests(&mut c, BatterySlot::Second);
    }
    c.push(IoctlCommand { code: IOCTL_SELECT_MODE, value: AUTOMATIC_MODE });
    c
}

/// The values of the Lenovo Power Manager battery key.
#[derive(Clone, Copy, Debug, PartialEq, Eq, Structural)]
pub enum RegistryField {
    ChargeStartPercentage,
    ChargeStopPercentage,
    ChargeStartControl,
    ChargeStopControl,
}

pub open spec fn registry_field_name(f: RegistryField) -> Seq<char> {
    match f {
        RegistryField::ChargeStartPercentage => "ChargeStartPercentage"@,
        RegistryField::ChargeStopPercentage => "ChargeStopPercentage"@,
        RegistryField::ChargeStartControl => "ChargeStartControl"@,
        RegistryField::ChargeStopControl => "ChargeStopControl"@,
    }
}

impl RegistryField {
    /// The name of the registry value.
    pub fn name(&self) -> (s: String)
        ensures
            s@ == registry_field_name(*self),
    {
        match self {
            RegistryField::ChargeStartPercentage => String::from_str("ChargeStartPercentage"),
            RegistryField::ChargeStopPercentage => String::from_str("ChargeStopPercentage"),
            RegistryField::ChargeStartControl => String::from_str("ChargeStartControl"),
            RegistryField::ChargeStopControl => String::from_str("ChargeStopControl"),
        }
    }
}

/// One 32-bit value written under the battery key.
#[derive(Clone, Copy, Debug, PartialEq, Eq, Structural)]
pub struct RegistryWrite {
    pub field: RegistryField,
    pub data: u32,
}

/// The registry writes, in order, that store a threshold pair and turn both
/// controls on.
pub open spec fn spec_threshold_registry_writes(start: u8, stop: u8) -> Seq<RegistryWrite> {
    seq![
        RegistryWrite { field: RegistryField::ChargeStartPercentage, data: start as u32 },
        RegistryWrite { field: RegistryField::ChargeStopPercentage, data: stop as u32 },
        RegistryWrite { field: RegistryField::ChargeStartControl, data: 1u32 },
        RegistryWrite { field: RegistryField::ChargeStopControl, data: 1u32 },
    ]
}

pub fn write_threshold_registry(start: u8, stop: u8) -> (w: Vec<RegistryWrite>)
    ensures
        w@ == spec_threshold_registry_writes(start, stop),
{
    vec![
        RegistryWrite { field: RegistryField::ChargeStartPercentage, data: start as u32 },
        RegistryWrite { field: RegistryField::ChargeStopPercentage, data: stop as u32 },
        RegistryWrite { field: RegistryField::ChargeStartControl, data: 1 },
        RegistryWrite { field: RegistryField::ChargeStopControl, data: 1 },
    ]
}

/// The registry writes for a charge to full: resume below 99% (the driver's
/// maximum) with the stop control off, so there is no ceiling.
pub open spec fn spec_charge_to_full_registry_writes() -> Seq<RegistryWrite> {
    seq![
        RegistryWrite { field: RegistryField::ChargeStartPercentage, data: 99u32 },
        RegistryWrite { field: RegistryField::ChargeStopPercentage, data: 100u32 },
        RegistryWrite { field: RegistryField::ChargeStartControl, data: 1u32 },
        RegistryWrite { field: RegistryField::ChargeStopControl, data: 0u32 },
    ]
}

pub fn write_charge_to_full_registry() -> (w: Vec<RegistryWrite>)
    ensures
        w@ == spec_charge_to_full_registry_writes(),
{
    vec![
        RegistryWrite { field: RegistryField::ChargeStartPercentage, data: 99 },
        RegistryWrite { field: RegistryField::ChargeStopPercentage, data: 100 },
        RegistryWrite { field: RegistryField::ChargeStartControl, data: 1 },
        RegistryWrite { field: RegistryField::ChargeStopControl, data: 0 },
    ]
}

/// The registry writes that turn both controls off.
pub open spec fn spec_release_registry_writes() -> Seq<RegistryWrite> {
    seq![
        RegistryWrite { field: RegistryField::ChargeStartControl, data: 0u32 },
        RegistryWrite { field: RegistryField::ChargeStopControl, data: 0u32 },
    ]
}

pub fn write_release_registry() -> (w: Vec<RegistryWrite>)
    ensures
        w@ == spec_release_registry_writes(),
{
    vec![
        RegistryWrite { field: RegistryField::ChargeStartControl, data: 0 },
        RegistryWrite { field: RegistryField::ChargeStopControl, data: 0 },
    ]
}

/// The four values read from the battery key, `None` for one that is missing
/// or unreadable.
#[derive(Clone, Copy, Debug, PartialEq, Eq, Structural)]
pub struct RegistryReading {
    pub start: Option<u32>,
    pub stop: Option<u32>,
    pub start_control: Option<u32>,
    pub stop_control: Option<u32>,
}

/// The thresholds stored in the registry: the start (0 where missing) at most
/// 99, the stop (100 where missing) at most 100, and whether both controls are
/// on (a missing control is off).
pub open spec fn spec_registry_thresholds(r: RegistryReading) -> (Option<u8>, Option<u8>, bool) {
    let start: u32 = match r.start {
        Some(v) => v,
        None => 0u32,
    };
    let stop: u32 = match r.stop {
        Some(v) => v,
        None => 100u32,
    };
    let start_ctrl: u32 = match r.start_control {
        Some(v) => v,
        None => 0u32,
    };
    let stop_ctrl: u32 = match r.stop_control {
        Some(v) => v,
        None => 0u32,
    };
    (
        Some((if start <= 99 { start } else { 99u32 }) as u8),
        Some((if stop <= 100 { stop } else { 100u32 }) as u8),
        start_ctrl != 0 && stop_ctrl != 0,
    )
}

/// The battery key after one value was written: that value reads back as
/// written, the others as before.
pub open spec fn spec_write_value(r: RegistryReading, w: RegistryWrite) -> RegistryReading {
    match w.field {
        RegistryField::ChargeStartPercentage => RegistryReading { start: Some(w.data), ..r },
        RegistryField::ChargeStopPercentage => RegistryReading { stop: Some(w.data), ..r },
        RegistryField::ChargeStartControl => RegistryReading { start_control: Some(w.data), ..r },
        RegistryField::ChargeStopControl => RegistryReading { stop_control: Some(w.data), ..r },
    }
}

/// The battery key after a list of writes, performed in order.
pub open spec fn spec_write_values(r: RegistryReading, ws: Seq<RegistryWrite>) -> RegistryReading
    decreases ws.len(),
{
    if ws.len() == 0 {
        r
    } else {
        spec_write_values(spec_write_value(r, ws[0]), ws.drop_first())
    }
}

pub fn read_registry_thresholds(reading: &RegistryReading) -> (t: (Option<u8>, Option<u8>, bool))
    ensures
        t == spec_registry_thresholds(*reading),
{
    let start: u32 = match reading.start {
        Some(v) => v,
        None => 0,
    };
    let stop: u32 = match reading.stop {
        Some(v) => v,
        None => 100,
    };
    let start_ctrl: u32 = match reading.start_control {
        Some(v) => v,
        None => 0,
    };
    let stop_ctrl: u32 = match reading.stop_control {
        Some(v) => v,
        None => 0,
    };
    let start = if start < 99 { start } else { 99 };
    let stop = if stop < 100 { stop } else { 100 };
    (Some(start as u8), Some(stop as u8), start_ctrl != 0 && stop_ctrl != 0)
}

/// Where the Lenovo Power Manager keeps the battery's configuration.
#[derive(Clone, Debug)]
pub struct PwrmgrLocation {
    pub data_path: String,
    pub battery_key: String,
}

/// The registry roots that hold the battery configuration, tried in order:
/// 32-bit redirection first, then the native path.
pub open spec fn data_path_candidates() -> Seq<Seq<char>> {
    seq![
        "SOFTWARE\\WOW6432Node\\Lenovo\\PWRMGRV\\ConfKeys\\Data"@,
        "SOFTWARE\\Lenovo\\PWRMGRV\\ConfKeys\\Data"@,
    ]
}

pub fn data_paths() -> (p: Vec<String>)
    ensures
        p@.len() == data_path_candidates().len(),
        forall|i: int| 0 <= i < p@.len() ==> #[trigger] p@[i]@ == data_path_candidates()[i],
{
    let mut p: Vec<String> = Vec::new();
    p.push(String::from_str("SOFTWARE\\WOW6432Node\\Lenovo\\PWRMGRV\\ConfKeys\\Data"));
    p.push(String::from_str("SOFTWARE\\Lenovo\\PWRMGRV\\ConfKeys\\Data"));
    p
}

/// The full path of the battery key below the machine hive.
pub fn battery_key_path(loc: &PwrmgrLocation) -> (p: String)
    ensures
        p@ == loc.data_path@ + "\\"@ + loc.battery_key@,
{
    let mut p = loc.data_path.clone();
    p.append("\\");
    p.append(loc.battery_key.as_str());
    p
}

/// The sub-keys found under one data path: each name, and whether it holds a
/// start or stop percentage.
#[derive(Clone, Debug)]
pub struct SubkeyScan {
    pub name: String,
    pub has_threshold_values: bool,
}

/// What searching one data path found: the error text where the path could
/// not be opened or listed, the sub-keys otherwise.
#[derive(Clone, Debug)]
pub enum DataPathScan {
    Unreadable(String),
    Listed(Vec<SubkeyScan>),
}

/// The first sub-key of a listing that holds a threshold value.
pub open spec fn first_threshold_key(keys: Seq<SubkeyScan>) -> Option<int>
    decreases keys.len(),
{
    if keys.len() == 0 {
        None
    } else if keys[0].has_threshold_values {
        Some(0)
    } else {
        match first_threshold_key(keys.drop_first()) {
            Some(i) => Some(i + 1),
            None => None,
        }
    }
}

/// A data path lists a sub-key that holds a threshold value.
pub open spec fn path_has_key(s: DataPathScan) -> bool {
    s matches DataPathScan::Listed(ks) && first_threshold_key(ks@) is Some
}

pub open spec fn missing_key_message(last_err: Seq<char>) -> Seq<char> {
    "No Lenovo battery configuration key found in PWRMGRV registry ("@ + last_err
        + "). Install Lenovo Power Manager / Vantage battery drivers."@
}

fn first_key(keys: &Vec<SubkeyScan>) -> (r: Option<usize>)
    ensures
        r matches Some(i) ==> first_threshold_key(keys@) == Some(i as int) && i < keys@.len(),
        r is None ==> first_threshold_key(keys@) is None,
{
    let mut i: usize = 0;
    assert(keys@.subrange(0, keys@.len() as int) =~= keys@);
    while i < keys.len()
        invariant
            i <= keys.len(),
            first_threshold_key(keys@) == (match first_threshold_key(keys@.subrange(i as int, keys@.len() as int)) {
                Some(j) => Some(j + i),
                None => None,
            }),
        decreases keys.len() - i,
    {
        assert(keys@.subrange(i as int, keys@.len() as int).drop_first() =~= keys@.subrange(i + 1, keys@.len() as int));
        if keys[i].has_threshold_values {
            return Some(i);
        }
        i = i + 1;
    }
    None
}

/// Finds the battery key: the first data path, in the order of the
/// candidates, that lists a sub-key holding a threshold value, and there the
/// first such sub-key. Where none is found, the error names the last failure:
/// the unreadable path and its error, or the path without a battery key.
pub fn locate_battery_key(scans: &Vec<DataPathScan>) -> (r: Result<PwrmgrLocation, String>)
    requires
        scans@.len() == data_path_candidates().len(),
    ensures
        r matches Ok(loc) ==> exists|p: int|
            0 <= p < scans@.len() && (#[trigger] scans@[p] matches DataPathScan::Listed(keys)
                && first_threshold_key(keys@) matches Some(k) && loc.data_path@ == data_path_candidates()[p]
                && loc.battery_key@ == keys@[k].name@ && forall|q: int|
                0 <= q < p ==> !path_has_key(#[trigger] scans@[q])),
        r is Err <==> forall|p: int| 0 <= p < scans@.len() ==> !path_has_key(#[trigger] scans@[p]),
        r matches Err(e) ==> e@ == missing_key_message(
            match scans@.last() {
                DataPathScan::Unreadable(err) => data_path_candidates().last() + ": "@ + err@,
                DataPathScan::Listed(_) => "No battery key under "@ + data_path_candidates().last(),
            },
        ),
{
    let paths = data_paths();
    let mut last_err = String::from_str("PWRMGRV registry not found");
    let mut p: usize = 0;
    while p < scans.len()
        invariant
            paths@.len() == scans@.len(),
            scans@.len() == data_path_candidates().len(),
            forall|i: int| 0 <= i < paths@.len() ==> #[trigger] paths@[i]@ == data_path_candidates()[i],
            p <= scans.len(),
            forall|q: int| 0 <= q < p ==> !path_has_key(#[trigger] scans@[q]),
            p > 0 ==> last_err@ == match scans@[p - 1] {
                DataPathScan::Unreadable(err) => data_path_candidates()[p - 1] + ": "@ + err@,
                DataPathScan::Listed(_) => "No battery key under "@ + data_path_candidates()[p - 1],
            },
        decreases scans.len() - p,
    {
        match &scans[p] {
            DataPathScan::Unreadable(err) => {
                let mut e = paths[p].clone();
                e.append(": ");
                e.append(err.as_str());
                last_err = e;
            },
            DataPathScan::Listed(keys) => {
                match first_key(keys) {
                    Some(k) => {
                        return Ok(
                            PwrmgrLocation {
                                data_path: paths[p].clone(),
                                battery_key: keys[k].name.clone(),
                            },
                        );
                    },
                    None => {
                        let mut e = String::from_str("No battery key under ");
                        e.append(paths[p].as_str());
                        last_err = e;
                    },
                }
            },
        }
        p = p + 1;
    }
    let mut msg = String::from_str("No Lenovo battery configuration key found in PWRMGRV registry (");
    msg.append(last_err.as_str());
    msg.append("). Install Lenovo Power Manager / Vantage battery drivers.");
    Err(msg)
}

pub open spec fn windows_backend_name() -> Seq<char> {
    "windows-ibmpmdrv"@
}

pub open spec fn no_driver_message() -> Seq<char> {
    "Lenovo PM driver not available. Try running as Administrator."@
}

pub open spec fn driver_message() -> Seq<char> {
    "Using Lenovo IBMPmDrv + PWRMGRV (overrides Vantage limits)."@
}

/// The Lenovo IBMPmDrv backend: thresholds set through the driver and kept in
/// the Power Manager registry.
#[derive(Clone, Copy, Debug, PartialEq, Eq, Structural)]
pub struct WindowsThinkPadBackend {
    pub saved_start: Option<u8>,
    pub saved_stop: Option<u8>,
    pub full_charge_mode: bool,
}

/// The registry thresholds, or nothing in force where the registry could not
/// be read.
pub open spec fn registry_or_none(registry: Option<(Option<u8>, Option<u8>, bool)>) -> (Option<u8>, Option<u8>, bool) {
    match registry {
        Some(t) => t,
        None => (None, None, false),
    }
}

impl WindowsThinkPadBackend {
    /// The backend as the registry leaves it: the stored pair is taken as
    /// saved only where both controls are on.
    pub fn new(registry: Option<(Option<u8>, Option<u8>, bool)>) -> (b: Self)
        ensures
            ({
                let (start, stop, enabled) = registry_or_none(registry);
                &&& b.saved_start == (if enabled { start } else { None })
                &&& b.saved_stop == (if enabled { stop } else { None })
                &&& !b.full_charge_mode
            }),
    {
        let (start, stop, enabled) = match registry {
            Some(t) => t,
            None => (None, None, false),
        };
        WindowsThinkPadBackend {
            saved_start: if enabled { start } else { None },
            saved_stop: if enabled { stop } else { None },
            full_charge_mode: false,
        }
    }

    /// Thresholds are in force where this process set them or the registry
    /// has both controls on, unless a charge to full runs.
    pub open spec fn spec_enabled(self, registry: Option<(Option<u8>, Option<u8>, bool)>) -> bool {
        (self.saved_start is Some || registry_or_none(registry).2) && !self.full_charge_mode
    }

    /// The start reported: the one set by this process, else the registry's.
    pub open spec fn spec_reported_start(self, registry: Option<(Option<u8>, Option<u8>, bool)>) -> Option<u8> {
        if self.saved_start is Some { self.saved_start } else { registry_or_none(registry).0 }
    }

    /// The stop reported: the one set by this process, else the registry's.
    pub open spec fn spec_reported_stop(self, registry: Option<(Option<u8>, Option<u8>, bool)>) -> Option<u8> {
        if self.saved_stop is Some { self.saved_stop } else { registry_or_none(registry).1 }
    }

    /// The threshold state, given whether the driver opens and what the
    /// registry holds (`None` where it could not be read). The values set by
    /// this process come before those of the registry.
    pub fn get_thresholds(
        &self,
        driver_available: bool,
        registry: Option<(Option<u8>, Option<u8>, bool)>,
    ) -> (s: ThresholdState)
        ensures
            !driver_available ==> crate::backend::unsupported_state(
                s,
                windows_backend_name(),
                no_driver_message(),
            ),
            driver_available ==> ({
                &&& s.supported
                &&& s.enabled == self.spec_enabled(registry)
                &&& s.start == self.spec_reported_start(registry)
                &&& s.stop == self.spec_reported_stop(registry)
                &&& s.backend@ == windows_backend_name()
                &&& s.message@ == driver_message()
            }),
    {
        if !driver_available {
            return ThresholdState {
                supported: false,
                enabled: false,
                start: None,
                stop: None,
                backend: String::from_str("windows-ibmpmdrv"),
                message: String::from_str("Lenovo PM driver not available. Try running as Administrator."),
            };
        }
        let (start, stop, enabled) = match registry {
            Some(t) => t,
            None => (None, None, false),
        };
        ThresholdState {
            supported: true,
            enabled: (self.saved_start.is_some() || enabled) && !self.full_charge_mode,
            start: match self.saved_start {
                Some(v) => Some(v),
                None => start,
            },
            stop: match self.saved_stop {
                Some(v) => Some(v),
                None => stop,
            },
            backend: String::from_str("windows-ibmpmdrv"),
            message: String::from_str("Using Lenovo IBMPmDrv + PWRMGRV (overrides Vantage limits)."),
        }
    }

    /// Records a threshold pair once registry and driver took it.
    pub fn record_thresholds(&mut self, start: u8, stop: u8)
        ensures
            *final(self) == (WindowsThinkPadBackend {
                saved_start: Some(start),
                saved_stop: Some(stop),
                full_charge_mode: false,
            }),
    {
        self.saved_start = Some(start);
        self.saved_stop = Some(stop);
        self.full_charge_mode = false;
    }

    /// Records that the limits were released for a charge to full or its
    /// top-off.
    pub fn enter_full_charge_mode(&mut self)
        ensures
            *final(self) == (WindowsThinkPadBackend { full_charge_mode: true, ..*old(self) }),
    {
        self.full_charge_mode = true;
    }
    /// The backend once every operation of a step succeeded: a pair applied
    /// is recorded, released limits put it in full-charge mode, and doing
    /// nothing changes nothing.
    pub open spec fn spec_after_step(self, step: PolicyStep) -> WindowsThinkPadBackend {
        match step_pair(step) {
            Some((start, stop)) => WindowsThinkPadBackend {
                saved_start: Some(start),
                saved_stop: Some(stop),
                full_charge_mode: false,
            },
            None => if step_releases_limits(step) {
                WindowsThinkPadBackend { full_charge_mode: true, ..self }
            } else {
                self
            },
        }
    }

    /// Records a step once all its operations succeeded.
    pub fn record_step(&mut self, step: PolicyStep)
        ensures
            *final(self) == old(self).spec_after_step(step),
    {
        match step {
            PolicyStep::SetThresholds { start, stop } => self.record_thresholds(start, stop),
            PolicyStep::ReassertThresholds { start, stop } => self.record_thresholds(start, stop),
            PolicyStep::Nothing => {},
            _ => self.enter_full_charge_mode(),
        }
    }
}

/// One operation of the Windows backend.
#[derive(Clone, Copy, Debug, PartialEq, Eq, Structural)]
pub enum WindowsOperation {
    /// Write the registry values of `write_threshold_registry`.
    WriteThresholdRegistry { start: u8, stop: u8 },
    /// Write the registry values of `write_charge_to_full_registry`.
    WriteChargeToFullRegistry,
    /// Write the registry values of `write_release_registry`.
    WriteReleaseRegistry,
    /// Send the driver the requests of `apply_thresholds_ioctl`.
    SendThresholdRequests { start: u8, stop: u8 },
    /// Send the driver the requests of `apply_charge_to_full_ioctl`.
    SendChargeToFullRequests,
    /// Send the driver the requests of `release_charge_limit_ioctl`.
    SendReleaseRequests,
    /// Tell other programs, Lenovo's among them, that the power settings
    /// changed.
    Broadcast,
}

/// The operations of each step, in order; the caller stops at the first that
/// fails. A threshold pair goes to the registry, then to the driver. A charge
/// to full first clears any latched stop of the previous pair, then stores and
/// applies charging below 99% with no ceiling. The top-off releases the
/// limits into the driver's automatic mode. The user's steps end with one
/// broadcast; the quiet steps only talk to the driver.
pub open spec fn spec_windows_operations(step: PolicyStep) -> Seq<WindowsOperation> {
    match step {
        PolicyStep::SetThresholds { start, stop } => seq![
            WindowsOperation::WriteThresholdRegistry { start, stop },
            WindowsOperation::SendThresholdRequests { start, stop },
            WindowsOperation::Broadcast,
        ],
        PolicyStep::ChargeToFull => seq![
            WindowsOperation::SendReleaseRequests,
            WindowsOperation::WriteChargeToFullRegistry,
            WindowsOperation::SendChargeToFullRequests,
            WindowsOperation::Broadcast,
        ],
        PolicyStep::ChargeToFullTopOff => seq![
            WindowsOperation::WriteReleaseRegistry,
            WindowsOperation::SendReleaseRequests,
            WindowsOperation::Broadcast,
        ],
        PolicyStep::ReassertThresholds { start, stop } => seq![
            WindowsOperation::SendThresholdRequests { start, stop },
        ],
        PolicyStep::ReassertChargeToFull => seq![
            WindowsOperation::SendReleaseRequests,
            WindowsOperation::SendChargeToFullRequests,
        ],
        PolicyStep::ReassertTopOff => seq![WindowsOperation::SendReleaseRequests],
        PolicyStep::Nothing => Seq::empty(),
    }
}

pub fn windows_operations(step: PolicyStep) -> (ops: Vec<WindowsOperation>)
    ensures
        ops@ == spec_windows_operations(step),
{
    match step {
        PolicyStep::SetThresholds { start, stop } => vec![
            WindowsOperation::WriteThresholdRegistry { start, stop },
            WindowsOperation::SendThresholdRequests { start, stop },
            WindowsOperation::Broadcast,
        ],
        PolicyStep::ChargeToFull => vec![
            WindowsOperation::SendReleaseRequests,
            WindowsOperation::WriteChargeToFullRegistry,
            WindowsOperation::SendChargeToFullRequests,
            WindowsOperation::Broadcast,
        ],
        PolicyStep::ChargeToFullTopOff => vec![
            WindowsOperation::WriteReleaseRegistry,
            WindowsOperation::SendReleaseRequests,
            WindowsOperation::Broadcast,
        ],
        PolicyStep::ReassertThresholds { start, stop } => vec![
            WindowsOperation::SendThresholdRequests { start, stop },
        ],
        PolicyStep::ReassertChargeToFull => vec![
            WindowsOperation::SendReleaseRequests,
            WindowsOperation::SendChargeToFullRequests,
        ],
        PolicyStep::ReassertTopOff => vec![WindowsOperation::SendReleaseRequests],
        PolicyStep::Nothing => Vec::new(),
    }
}

/// An operation that changes the registry or broadcasts.
pub open spec fn is_loud_operation(op: WindowsOperation) -> bool {
    !(op is SendThresholdRequests || op is SendChargeToFullRequests || op is SendReleaseRequests)
}

/// Every present battery slot is addressed: its mode is selected first, then
/// its stop (never above 99) before its start, each value carrying the slot's
/// prefix with the percentage in the low byte. The first slot comes first; the
/// second follows where a second battery is present.
pub proof fn lemma_threshold_requests(start: u8, stop: u8, second_battery_present: bool)
    ensures
        ({
            let c = spec_apply_thresholds_ioctl(start, stop, second_battery_present);
            &&& c.len() == (if second_battery_present { 6int } else { 3int })
            &&& c[0] == IoctlCommand { code: IOCTL_SELECT_MODE, value: THRESHOLD_MODE_BATTERY1 }
            &&& c[1].code == IOCTL_SET_STOP && c[1].value - BATTERY1_PREFIX == driver_stop(stop)
            &&& c[2].code == IOCTL_SET_START && c[2].value - BATTERY1_PREFIX == start
            &&& second_battery_present ==> {
                &&& c[3] == IoctlCommand { code: IOCTL_SELECT_MODE, value: THRESHOLD_MODE_BATTERY2 }
                &&& c[4].code == IOCTL_SET_STOP && c[4].value - BATTERY2_PREFIX == driver_stop(stop)
                &&& c[5].code == IOCTL_SET_START && c[5].value - BATTERY2_PREFIX == start
            }
        }),
        driver_stop(stop) <= 99,
{
}

/// Charging to full and releasing the limits reach every present battery
/// slot too, and releasing always ends in the driver's automatic mode.
pub proof fn lemma_full_charge_requests(second_battery_present: bool)
    ensures
        ({
            let c = spec_apply_charge_to_full_ioctl(second_battery_present);
            &&& c.len() == (if second_battery_present { 6int } else { 3int })
            &&& c[0].value == THRESHOLD_MODE_BATTERY1
            &&& c[2].value == BATTERY1_PREFIX + 99
            &&& second_battery_present ==> c[3].value == THRESHOLD_MODE_BATTERY2 && c[5].value
                == BATTERY2_PREFIX + 99
        }),
        ({
            let c = spec_release_charge_limit_ioctl(second_battery_present);
            &&& c.len() == (if second_battery_present { 7int } else { 4int })
            &&& c[0].value == THRESHOLD_MODE_BATTERY1
            &&& second_battery_present ==> c[3].value == THRESHOLD_MODE_BATTERY2
            &&& c.last() == IoctlCommand { code: IOCTL_SELECT_MODE, value: AUTOMATIC_MODE }
        }),
{
}

/// The registry thresholds are always in the driver's ranges.
pub proof fn lemma_registry_ranges(r: RegistryReading)
    ensures
        ({
            let (start, stop, _) = spec_registry_thresholds(r);
            &&& start matches Some(s) && s <= 99
            &&& stop matches Some(t) && t <= 100
        }),
{
}

/// What the backend reports after a threshold pair was set is that pair, in
/// force, whatever the registry holds; after a charge to full, nothing is in
/// force.
pub proof fn lemma_reported_after_set(start: u8, stop: u8, registry: Option<(Option<u8>, Option<u8>, bool)>)
    ensures
        ({
            let b = WindowsThinkPadBackend { saved_start: Some(start), saved_stop: Some(stop), full_charge_mode: false };
            &&& b.spec_enabled(registry)
            &&& b.spec_reported_start(registry) == Some(start)
            &&& b.spec_reported_stop(registry) == Some(stop)
            &&& !WindowsThinkPadBackend { full_charge_mode: true, ..b }.spec_enabled(registry)
        }),
{
}

/// What is read back after the registry writes: after a threshold pair, that
/// pair (in the driver's ranges) with both controls on; after a charge to
/// full, a start of 99 and a stop of 100 with the stop control off; after a
/// release, the stored pair unchanged and the controls off. This holds
/// whatever the key held before.
pub proof fn lemma_registry_round_trip(r: RegistryReading, start: u8, stop: u8)
    ensures
        spec_registry_thresholds(spec_write_values(r, spec_threshold_registry_writes(start, stop)))
            == (Some(if start <= 99 { start } else { 99u8 }), Some(if stop <= 100 { stop } else { 100u8 }), true),
        spec_registry_thresholds(spec_write_values(r, spec_charge_to_full_registry_writes())) == (
            Some(99u8),
            Some(100u8),
            false,
        ),
        ({
            let (start0, stop0, _) = spec_registry_thresholds(r);
            spec_registry_thresholds(spec_write_values(r, spec_release_registry_writes())) == (
                start0,
                stop0,
                false,
            )
        }),
{
    reveal_with_fuel(spec_write_values, 5);
    let t = spec_threshold_registry_writes(start, stop);
    assert(t.drop_first() =~= seq![t[1], t[2], t[3]]);
    assert(t.drop_first().drop_first() =~= seq![t[2], t[3]]);
    assert(t.drop_first().drop_first().drop_first() =~= seq![t[3]]);
    assert(t.drop_first().drop_first().drop_first().drop_first() =~= Seq::<RegistryWrite>::empty());
    let f = spec_charge_to_full_registry_writes();
    assert(f.drop_first() =~= seq![f[1], f[2], f[3]]);
    assert(f.drop_first().drop_first() =~= seq![f[2], f[3]]);
    assert(f.drop_first().drop_first().drop_first() =~= seq![f[3]]);
    assert(f.drop_first().drop_first().drop_first().drop_first() =~= Seq::<RegistryWrite>::empty());
    let e = spec_release_registry_writes();
    assert(e.drop_first() =~= seq![e[1]]);
    assert(e.drop_first().drop_first() =~= Seq::<RegistryWrite>::empty());
}

/// The quiet steps only send driver requests, so the registry is written
/// only by the user's steps; each of those ends with exactly one broadcast.
pub proof fn lemma_operations_order(step: PolicyStep)
    ensures
        !is_user_initiated(step) ==> forall|i: int|
            0 <= i < spec_windows_operations(step).len() ==> !is_loud_operation(
                #[trigger] spec_windows_operations(step)[i],
            ),
        is_user_initiated(step) ==> ({
            let ops = spec_windows_operations(step);
            &&& ops.len() > 0
            &&& ops.last() is Broadcast
            &&& forall|i: int| 0 <= i < ops.len() - 1 ==> !(#[trigger] ops[i] is Broadcast)
        }),
{
}

/// With nothing set by this process and no charge to full, the reported
/// enabled flag is the registry's: on exactly when both charge controls are
/// present and nonzero, off where the registry cannot be read. A backend
/// built from a registry reports that registry's flag, and a charge to full
/// reports nothing in force. A value set by this process is reported before
/// the registry's; otherwise the registry's value is reported as read.
pub proof fn lemma_enabled_follows_registry(
    b: WindowsThinkPadBackend,
    reading: RegistryReading,
    t: (Option<u8>, Option<u8>, bool),
)
    ensures
        b.saved_start is None && !b.full_charge_mode ==> (b.spec_enabled(Some(spec_registry_thresholds(reading)))
            <==> (reading.start_control is Some && reading.start_control.unwrap() != 0
            && reading.stop_control is Some && reading.stop_control.unwrap() != 0)),
        b.saved_start is None ==> !b.spec_enabled(None),
        b.saved_start is None ==> !b.spec_enabled(Some((t.0, t.1, false))),
        b.full_charge_mode ==> !b.spec_enabled(Some(t)),
        b.saved_start is None ==> b.spec_reported_start(Some(t)) == t.0,
        b.saved_stop is None ==> b.spec_reported_stop(Some(t)) == t.1,
        b.saved_start matches Some(v) ==> b.spec_reported_start(Some(t)) == Some(v) && b.spec_reported_start(None) == Some(v),
        ({
            let built = WindowsThinkPadBackend {
                saved_start: if t.2 { t.0 } else { None },
                saved_stop: if t.2 { t.1 } else { None },
                full_charge_mode: false,
            };
            built.spec_enabled(Some(t)) == t.2
        }),
{
}

} // verus!
