use vstd::prelude::*;

use crate::backend::{step_pair, step_releases_limits, PolicyStep, ThresholdState};
use crate::text::{format_u8, precedes, read_u8, text_lt, lemma_text_lt_transitive, decimal, spec_read_u8};

verus! {

/// The directory under which the kernel lists power supplies.
pub open spec fn power_supply_root() -> Seq<char> {
    "/sys/class/power_supply"@
}

pub open spec fn start_threshold_file() -> Seq<char> {
    "charge_control_start_threshold"@
}

pub open spec fn end_threshold_file() -> Seq<char> {
    "charge_control_end_threshold"@
}

pub open spec fn linux_backend_name() -> Seq<char> {
    "linux-thinkpad-acpi"@
}

pub open spec fn no_sysfs_message() -> Seq<char> {
    "thinkpad_acpi charge threshold sysfs not found."@
}

pub open spec fn no_battery_error() -> Seq<char> {
    "No ThinkPad battery sysfs interface found"@
}

pub open spec fn permission_denied_message() -> Seq<char> {
    "Permission denied writing battery thresholds. Configure udev rules or run with privileges."@
}

/// One entry of the power-supply directory: its name, and whether both
/// threshold files exist in it.
#[derive(Clone, Debug)]
pub struct PowerSupplyEntry {
    pub name: String,
    pub has_threshold_files: bool,
}

/// A battery whose charge thresholds the kernel exposes: its name begins with
/// `BAT` and both threshold files exist.
pub open spec fn is_threshold_battery(e: PowerSupplyEntry) -> bool {
    &&& e.name@.len() >= 3
    &&& e.name@[0] == 'B'
    &&& e.name@[1] == 'A'
    &&& e.name@[2] == 'T'
    &&& e.has_threshold_files
}

/// The battery chosen among the entries: none where no entry qualifies, and
/// otherwise the name of a qualifying entry that no other qualifying entry
/// sorts before (the first of the sorted paths).
pub open spec fn is_chosen_battery(entries: Seq<PowerSupplyEntry>, chosen: Option<String>) -> bool {
    match chosen {
        None => forall|i: int| 0 <= i < entries.len() ==> !is_threshold_battery(#[trigger] entries[i]),
        Some(n) => {
            &&& exists|i: int|
                0 <= i < entries.len() && is_threshold_battery(#[trigger] entries[i]) && entries[i].name@
                    == n@
            &&& forall|j: int|
                0 <= j < entries.len() && is_threshold_battery(#[trigger] entries[j]) ==> !text_lt(
                    entries[j].name@,
                    n@,
                )
        },
    }
}

fn qualifies(e: &PowerSupplyEntry) -> (r: bool)
    ensures
        r == is_threshold_battery(*e),
{
    let n = e.name.as_str();
    e.has_threshold_files && n.unicode_len() >= 3 && n.get_char(0) == 'B' && n.get_char(1) == 'A'
        && n.get_char(2) == 'T'
}

/// Chooses the battery whose thresholds are controlled: the first qualifying
/// entry in path order.
pub fn select_battery(entries: &Vec<PowerSupplyEntry>) -> (r: Option<String>)
    ensures
        is_chosen_battery(entries@, r),
{
    let mut best: Option<String> = None;
    let ghost mut best_index: int = 0;
    let mut i: usize = 0;
    while i < entries.len()
        invariant
            i <= entries.len(),
            match best {
                None => forall|k: int| 0 <= k < i ==> !is_threshold_battery(#[trigger] entries@[k]),
                Some(b) => {
                    &&& 0 <= best_index < i
                    &&& is_threshold_battery(entries@[best_index])
                    &&& entries@[best_index].name@ == b@
                    &&& forall|k: int|
                        0 <= k < i && is_threshold_battery(#[trigger] entries@[k]) ==> !text_lt(
                            entries@[k].name@,
                            b@,
                        )
                },
            },
        decreases entries.len() - i,
    {
        let e = &entries[i];
        if qualifies(e) {
            let replace = match &best {
                None => true,
                Some(b) => precedes(e.name.as_str(), b.as_str()),
            };
            if replace {
                proof {
                    if best is Some {
                        let b = best->0;
                        assert forall|k: int|
                            0 <= k < i + 1 && is_threshold_battery(#[trigger] entries@[k]) implies !text_lt(
                            entries@[k].name@,
                            e.name@,
                        ) by {
                            if k < i && text_lt(entries@[k].name@, e.name@) {
                                lemma_text_lt_transitive(entries@[k].name@, e.name@, b@);
                            }
                            if k == i {
                                crate::text::lemma_text_lt_irreflexive(e.name@);
                            }
                        }
                    } else {
                        assert forall|k: int|
                            0 <= k < i + 1 && is_threshold_battery(#[trigger] entries@[k]) implies !text_lt(
                            entries@[k].name@,
                            e.name@,
                        ) by {
                            crate::text::lemma_text_lt_irreflexive(e.name@);
                        }
                    }
                    best_index = i as int;
                }
                best = Some(e.name.clone());
            }
        }
        i = i + 1;
    }
    proof {
        if best is Some {
            assert(is_threshold_battery(entries@[best_index]));
        }
    }
    best
}

/// Which threshold file a write goes to.
#[derive(Clone, Copy, Debug, PartialEq, Eq, Structural)]
pub enum ThresholdFile {
    Start,
    End,
}

/// One value written to a threshold file.
#[derive(Clone, Copy, Debug, PartialEq, Eq, Structural)]
pub struct ThresholdWrite {
    pub file: ThresholdFile,
    pub value: u8,
}

/// The highest end threshold that a threshold pair sets; 100 is reserved for
/// charging to full.
pub open spec fn clamped_end(stop: u8) -> u8 {
    if stop <= 99 { stop } else { 99 }
}

/// The two writes that set a threshold pair: the end lowered to at most 99.
/// When the new end lies below the current one (100 where it cannot be read)
/// the end is written first, otherwise the start is.
pub open spec fn spec_threshold_writes(start: u8, stop: u8, current_end: Option<u8>) -> Seq<ThresholdWrite> {
    let end = clamped_end(stop);
    let current = match current_end {
        Some(c) => c,
        None => 100u8,
    };
    if end < current {
        seq![
            ThresholdWrite { file: ThresholdFile::End, value: end },
            ThresholdWrite { file: ThresholdFile::Start, value: start },
        ]
    } else {
        seq![
            ThresholdWrite { file: ThresholdFile::Start, value: start },
            ThresholdWrite { file: ThresholdFile::End, value: end },
        ]
    }
}

pub fn threshold_writes(start: u8, stop: u8, current_end: Option<u8>) -> (w: Vec<ThresholdWrite>)
    ensures
        w@ == spec_threshold_writes(start, stop, current_end),
{
    let end = if stop < 99 { stop } else { 99 };
    let current = match current_end {
        Some(c) => c,
        None => 100,
    };
    if end < current {
        vec![
            ThresholdWrite { file: ThresholdFile::End, value: end },
            ThresholdWrite { file: ThresholdFile::Start, value: start },
        ]
    } else {
        vec![
            ThresholdWrite { file: ThresholdFile::Start, value: start },
            ThresholdWrite { file: ThresholdFile::End, value: end },
        ]
    }
}

/// The writes that let the pack charge to full: end, then start, both at 100,
/// so that any level below 100% charges.
pub open spec fn spec_charge_to_full_writes() -> Seq<ThresholdWrite> {
    seq![
        ThresholdWrite { file: ThresholdFile::End, value: 100u8 },
        ThresholdWrite { file: ThresholdFile::Start, value: 100u8 },
    ]
}

pub fn charge_to_full_writes() -> (w: Vec<ThresholdWrite>)
    ensures
        w@ == spec_charge_to_full_writes(),
{
    vec![
        ThresholdWrite { file: ThresholdFile::End, value: 100 },
        ThresholdWrite { file: ThresholdFile::Start, value: 100 },
    ]
}

/// The writes of each step. The sysfs files have no quieter path, so a quiet
/// step writes what the user's step of the same kind writes: a pair as
/// `threshold_writes` orders it, every release as a charge to full.
pub open spec fn spec_step_writes(step: PolicyStep, current_end: Option<u8>) -> Seq<ThresholdWrite> {
    match step_pair(step) {
        Some((start, stop)) => spec_threshold_writes(start, stop, current_end),
        None => if step_releases_limits(step) {
            spec_charge_to_full_writes()
        } else {
            Seq::empty()
        },
    }
}

pub fn step_writes(step: PolicyStep, current_end: Option<u8>) -> (w: Vec<ThresholdWrite>)
    ensures
        w@ == spec_step_writes(step, current_end),
{
    match step {
        PolicyStep::SetThresholds { start, stop } => threshold_writes(start, stop, current_end),
        PolicyStep::ReassertThresholds { start, stop } => threshold_writes(start, stop, current_end),
        PolicyStep::Nothing => Vec::new(),
        _ => charge_to_full_writes(),
    }
}

/// Reads a threshold file's content: the trimmed text parsed as a number.
pub fn parse_threshold(content: &str) -> (r: Option<u8>)
    ensures
        r == spec_read_u8(content@),
{
    read_u8(content)
}

/// The text written to a threshold file: the value in decimal.
pub fn format_threshold(value: u8) -> (s: String)
    ensures
        s@ == decimal(value as nat),
{
    format_u8(value)
}

/// The message of a failed threshold write: a hint about permissions where
/// the write was denied, the path and the system's error otherwise.
pub fn write_error_message(permission_denied: bool, path: &str, error_text: &str) -> (s: String)
    ensures
        permission_denied ==> s@ == permission_denied_message(),
        !permission_denied ==> s@ == "Failed to write "@ + path@ + ": "@ + error_text@,
{
    if permission_denied {
        String::from_str("Permission denied writing battery thresholds. Configure udev rules or run with privileges.")
    } else {
        let mut s = String::from_str("Failed to write ");
        s.append(path);
        s.append(": ");
        s.append(error_text);
        s
    }
}

/// The ThinkPad ACPI backend: the thresholds of the chosen battery, set
/// through its sysfs files.
#[derive(Clone, Debug)]
pub struct LinuxThinkPadBackend {
    pub battery_name: Option<String>,
    pub saved_start: Option<u8>,
    pub saved_stop: Option<u8>,
    pub full_charge_mode: bool,
}

/// The path of a threshold file of a battery.
pub open spec fn threshold_path(name: Seq<char>, file: Seq<char>) -> Seq<char> {
    power_supply_root() + "/"@ + name + "/"@ + file
}

fn battery_file(name: &String, file: &str) -> (p: String)
    ensures
        p@ == threshold_path(name@, file@),
{
    let mut p = String::from_str("/sys/class/power_supply");
    p.append("/");
    p.append(name.as_str());
    p.append("/");
    p.append(file);
    p
}

impl LinuxThinkPadBackend {
    /// The backend for the battery chosen among the power-supply entries,
    /// with nothing saved and not charging to full.
    pub fn new(entries: &Vec<PowerSupplyEntry>) -> (b: Self)
        ensures
            is_chosen_battery(entries@, b.battery_name),
            b.saved_start is None,
            b.saved_stop is None,
            !b.full_charge_mode,
    {
        LinuxThinkPadBackend {
            battery_name: select_battery(entries),
            saved_start: None,
            saved_stop: None,
            full_charge_mode: false,
        }
    }

    /// The path of the start threshold file.
    pub fn start_file(&self) -> (r: Result<String, String>)
        ensures
            match self.battery_name {
                Some(n) => r matches Ok(p) && p@ == threshold_path(n@, start_threshold_file()),
                None => r matches Err(e) && e@ == no_battery_error(),
            },
    {
        match &self.battery_name {
            Some(n) => Ok(battery_file(n, "charge_control_start_threshold")),
            None => Err(String::from_str("No ThinkPad battery sysfs interface found")),
        }
    }

    /// The path of the end threshold file.
    pub fn end_file(&self) -> (r: Result<String, String>)
        ensures
            match self.battery_name {
                Some(n) => r matches Ok(p) && p@ == threshold_path(n@, end_threshold_file()),
                None => r matches Err(e) && e@ == no_battery_error(),
            },
    {
        match &self.battery_name {
            Some(n) => Ok(battery_file(n, "charge_control_end_threshold")),
            None => Err(String::from_str("No ThinkPad battery sysfs interface found")),
        }
    }

    /// Whether thresholds are in force: an end below 100 was read and no
    /// charge to full runs.
    pub open spec fn spec_enabled(self, stop_reading: Option<u8>) -> bool {
        (stop_reading matches Some(v) && v < 100) && !self.full_charge_mode
    }

    /// The start threshold reported: the value read, or the last one set.
    pub open spec fn spec_reported_start(self, start_reading: Option<u8>) -> Option<u8> {
        if start_reading is Some { start_reading } else { self.saved_start }
    }

    /// The stop threshold reported: the value read, or the last one set.
    pub open spec fn spec_reported_stop(self, stop_reading: Option<u8>) -> Option<u8> {
        if stop_reading is Some { stop_reading } else { self.saved_stop }
    }

    /// The threshold state, given what the two threshold files read (`None`
    /// where a file could not be read or parsed). Values that could not be
    /// read are replaced by the last ones set.
    pub fn get_thresholds(&self, start_reading: Option<u8>, stop_reading: Option<u8>) -> (s: ThresholdState)
        ensures
            self.battery_name is None ==> crate::backend::unsupported_state(
                s,
                linux_backend_name(),
                no_sysfs_message(),
            ),
            self.battery_name matches Some(n) ==> {
                &&& s.supported
                &&& s.enabled == self.spec_enabled(stop_reading)
                &&& s.start == self.spec_reported_start(start_reading)
                &&& s.stop == self.spec_reported_stop(stop_reading)
                &&& s.backend@ == linux_backend_name()
                &&& s.message@ == "Using "@ + n@ + " sysfs interface."@
            },
    {
        match &self.battery_name {
            None => ThresholdState {
                supported: false,
                enabled: false,
                start: None,
                stop: None,
                backend: String::from_str("linux-thinkpad-acpi"),
                message: String::from_str("thinkpad_acpi charge threshold sysfs not found."),
            },
            Some(n) => {
                let enabled = match stop_reading {
                    Some(v) => v < 100,
                    None => false,
                } && !self.full_charge_mode;
                let mut message = String::from_str("Using ");
                message.append(n.as_str());
                message.append(" sysfs interface.");
                ThresholdState {
                    supported: true,
                    enabled,
                    start: match start_reading {
                        Some(v) => Some(v),
                        None => self.saved_start,
                    },
                    stop: match stop_reading {
                        Some(v) => Some(v),
                        None => self.saved_stop,
                    },
                    backend: String::from_str("linux-thinkpad-acpi"),
                    message,
                }
            },
        }
    }

    /// Records a threshold pair once both files were written.
    pub fn record_thresholds(&mut self, start: u8, stop: u8)
        ensures
            final(self).battery_name == old(self).battery_name,
            final(self).saved_start == Some(start),
            final(self).saved_stop == Some(stop),
            !final(self).full_charge_mode,
    {
        self.saved_start = Some(start);
        self.saved_stop = Some(stop);
        self.full_charge_mode = false;
    }

    /// Records that the limits were released for a charge to full.
    pub fn enter_full_charge_mode(&mut self)
        ensures
            final(self).battery_name == old(self).battery_name,
            final(self).saved_start == old(self).saved_start,
            final(self).saved_stop == old(self).saved_stop,
            final(self).full_charge_mode,
    {
        self.full_charge_mode = true;
    }

    /// Records a step once all its writes succeeded: a pair applied is
    /// recorded, released limits put the backend in full-charge mode, and
    /// doing nothing changes nothing. The battery stays the same.
    pub fn record_step(&mut self, step: PolicyStep)
        ensures
            final(self).battery_name == old(self).battery_name,
            step_pair(step) matches Some((start, stop)) ==> final(self).saved_start == Some(start)
                && final(self).saved_stop == Some(stop) && !final(self).full_charge_mode,
            step_pair(step) is None ==> final(self).saved_start == old(self).saved_start
                && final(self).saved_stop == old(self).saved_stop
                && final(self).full_charge_mode == (old(self).full_charge_mode || step_releases_limits(step)),
    {
        match step {
            PolicyStep::SetThresholds { start, stop } => self.record_thresholds(start, stop),
            PolicyStep::ReassertThresholds { start, stop } => self.record_thresholds(start, stop),
            PolicyStep::Nothing => {},
            _ => self.enter_full_charge_mode(),
        }
    }
}

/// The chosen battery is determined by the entries: two choices that both
/// meet the rule name the same battery.
pub proof fn lemma_chosen_battery_unique(entries: Seq<PowerSupplyEntry>, a: String, b: String)
    requires
        is_chosen_battery(entries, Some(a)),
        is_chosen_battery(entries, Some(b)),
    ensures
        a@ == b@,
{
    let i = choose|i: int| 0 <= i < entries.len() && is_threshold_battery(#[trigger] entries[i]) && entries[i].name@ == a@;
    let j = choose|j: int| 0 <= j < entries.len() && is_threshold_battery(#[trigger] entries[j]) && entries[j].name@ == b@;
    if a@ != b@ {
        crate::text::lemma_text_lt_total(a@, b@);
        assert(!text_lt(entries[i].name@, b@));
        assert(!text_lt(entries[j].name@, a@));
    }
}

/// A threshold written to its file reads back as the same value.
pub proof fn lemma_threshold_round_trip(value: u8)
    ensures
        spec_read_u8(decimal(value as nat)) == Some(value),
{
    crate::text::lemma_read_decimal(value);
}

/// Setting a threshold pair writes each file once, the end at most 99, and
/// never leaves the end below the value it replaces before the start is
/// lowered: the end goes first exactly when it decreases.
pub proof fn lemma_threshold_writes(start: u8, stop: u8, current_end: Option<u8>)
    ensures
        ({
            let w = spec_threshold_writes(start, stop, current_end);
            &&& w.len() == 2
            &&& w[0].file != w[1].file
            &&& forall|i: int| 0 <= i < 2 && w[i].file == ThresholdFile::End ==> #[trigger] w[i].value
                == clamped_end(stop) && w[i].value <= 99
            &&& forall|i: int| 0 <= i < 2 && w[i].file == ThresholdFile::Start ==> #[trigger] w[i].value
                == start
        }),
{
}

/// What a backend reports after a threshold pair was set: the pair itself
/// where the files cannot be read back, in force exactly when the end read is
/// below 100; and after a charge to full, never in force.
pub proof fn lemma_reported_after_set(
    b: LinuxThinkPadBackend,
    start: u8,
    stop: u8,
    stop_reading: Option<u8>,
)
    ensures
        ({
            let set = LinuxThinkPadBackend {
                saved_start: Some(start),
                saved_stop: Some(stop),
                full_charge_mode: false,
                ..b
            };
            &&& set.spec_enabled(stop_reading) == (stop_reading matches Some(v) && v < 100)
            &&& set.spec_reported_start(None) == Some(start)
            &&& set.spec_reported_stop(None) == Some(stop)
            &&& !LinuxThinkPadBackend { full_charge_mode: true, ..set }.spec_enabled(stop_reading)
        }),
{
}

} // verus!
