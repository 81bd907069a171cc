use thinkcharge::backend::PolicyStep;
use thinkcharge::linux::{
    charge_to_full_writes, format_threshold, parse_threshold, select_battery, step_writes,
    threshold_writes, write_error_message, LinuxThinkPadBackend, PowerSupplyEntry, ThresholdFile,
    ThresholdWrite,
};

fn entry(name: &str, has: bool) -> PowerSupplyEntry {
    PowerSupplyEntry { name: name.to_string(), has_threshold_files: has }
}

fn backend(name: Option<&str>) -> LinuxThinkPadBackend {
    LinuxThinkPadBackend {
        battery_name: name.map(|n| n.to_string()),
        saved_start: None,
        saved_stop: None,
        full_charge_mode: false,
    }
}

#[test]
fn selects_first_battery_with_threshold_files() {
    let entries = vec![
        entry("AC", true),
        entry("BAT1", true),
        entry("BAT0", false),
        entry("BAT10", true),
        entry("hidpp_battery_0", true),
    ];
    assert_eq!(select_battery(&entries), Some("BAT1".to_string()));
    let entries = vec![entry("BAT1", true), entry("BAT0", true)];
    assert_eq!(select_battery(&entries), Some("BAT0".to_string()));
}

#[test]
fn no_battery_without_qualifying_entry() {
    assert_eq!(select_battery(&vec![]), None);
    assert_eq!(select_battery(&vec![entry("AC", true), entry("BAT0", false), entry("BA", true)]), None);
}

#[test]
fn new_backend_starts_clean() {
    let b = LinuxThinkPadBackend::new(&vec![entry("BAT0", true)]);
    assert_eq!(b.battery_name, Some("BAT0".to_string()));
    assert_eq!(b.saved_start, None);
    assert_eq!(b.saved_stop, None);
    assert!(!b.full_charge_mode);
}

#[test]
fn threshold_file_paths() {
    let b = backend(Some("BAT0"));
    assert_eq!(b.start_file(), Ok("/sys/class/power_supply/BAT0/charge_control_start_threshold".to_string()));
    assert_eq!(b.end_file(), Ok("/sys/class/power_supply/BAT0/charge_control_end_threshold".to_string()));
    let none = backend(None);
    assert_eq!(none.start_file(), Err("No ThinkPad battery sysfs interface found".to_string()));
    assert_eq!(none.end_file(), Err("No ThinkPad battery sysfs interface found".to_string()));
}

#[test]
fn lowering_end_writes_end_first() {
    let w = threshold_writes(60, 80, Some(90));
    assert_eq!(
        w,
        vec![
            ThresholdWrite { file: ThresholdFile::End, value: 80 },
            ThresholdWrite { file: ThresholdFile::Start, value: 60 },
        ]
    );
}

#[test]
fn raising_end_writes_start_first() {
    let w = threshold_writes(60, 80, Some(70));
    assert_eq!(
        w,
        vec![
            ThresholdWrite { file: ThresholdFile::Start, value: 60 },
            ThresholdWrite { file: ThresholdFile::End, value: 80 },
        ]
    );
    let same = threshold_writes(60, 80, Some(80));
    assert_eq!(same[0].file, ThresholdFile::Start);
}

#[test]
fn end_is_clamped_and_unreadable_end_counts_as_hundred() {
    let w = threshold_writes(95, 100, None);
    assert_eq!(
        w,
        vec![
            ThresholdWrite { file: ThresholdFile::End, value: 99 },
            ThresholdWrite { file: ThresholdFile::Start, value: 95 },
        ]
    );
}

#[test]
fn full_charge_writes_hundred_twice() {
    assert_eq!(
        charge_to_full_writes(),
        vec![
            ThresholdWrite { file: ThresholdFile::End, value: 100 },
            ThresholdWrite { file: ThresholdFile::Start, value: 100 },
        ]
    );
}

#[test]
fn parses_sysfs_content() {
    assert_eq!(parse_threshold("80\n"), Some(80));
    assert_eq!(parse_threshold("  75 \t\n"), Some(75));
    assert_eq!(parse_threshold("+7"), Some(7));
    assert_eq!(parse_threshold("007"), Some(7));
    assert_eq!(parse_threshold("255"), Some(255));
    assert_eq!(parse_threshold("256"), None);
    assert_eq!(parse_threshold("1000"), None);
    assert_eq!(parse_threshold("-1"), None);
    assert_eq!(parse_threshold("+"), None);
    assert_eq!(parse_threshold(""), None);
    assert_eq!(parse_threshold("   \n"), None);
    assert_eq!(parse_threshold("8 0"), None);
    assert_eq!(parse_threshold("eighty"), None);
    assert_eq!(parse_threshold("\u{3000}42\u{2029}"), Some(42));
}

#[test]
fn parse_agrees_with_std() {
    for text in ["80\n", " 1", "+", "++1", "99x", "0", "00000000000000000001", "300", "\u{a0}5"] {
        assert_eq!(parse_threshold(text), text.trim().parse::<u8>().ok(), "{:?}", text);
    }
}

#[test]
fn formats_and_reads_back_every_value() {
    for v in 0..=255u8 {
        let s = format_threshold(v);
        assert_eq!(s, v.to_string());
        assert_eq!(parse_threshold(&s), Some(v));
    }
}

#[test]
fn write_error_messages() {
    assert_eq!(
        write_error_message(true, "/x", "denied"),
        "Permission denied writing battery thresholds. Configure udev rules or run with privileges."
    );
    assert_eq!(
        write_error_message(false, "/sys/class/power_supply/BAT0/charge_control_end_threshold", "Invalid argument (os error 22)"),
        "Failed to write /sys/class/power_supply/BAT0/charge_control_end_threshold: Invalid argument (os error 22)"
    );
}

#[test]
fn thresholds_without_battery() {
    let s = backend(None).get_thresholds(Some(10), Some(20));
    assert!(!s.supported && !s.enabled);
    assert_eq!((s.start, s.stop), (None, None));
    assert_eq!(s.backend, "linux-thinkpad-acpi");
    assert_eq!(s.message, "thinkpad_acpi charge threshold sysfs not found.");
}

#[test]
fn thresholds_from_readings() {
    let b = backend(Some("BAT0"));
    let s = b.get_thresholds(Some(75), Some(80));
    assert!(s.supported && s.enabled);
    assert_eq!((s.start, s.stop), (Some(75), Some(80)));
    assert_eq!(s.message, "Using BAT0 sysfs interface.");
    let s = b.get_thresholds(Some(0), Some(100));
    assert!(!s.enabled);
    let s = b.get_thresholds(None, None);
    assert!(!s.enabled);
    assert_eq!((s.start, s.stop), (None, None));
}

#[test]
fn set_then_report_gives_back_the_pair() {
    let mut b = backend(Some("BAT1"));
    b.record_thresholds(60, 85);
    let s = b.get_thresholds(None, None);
    assert_eq!((s.start, s.stop), (Some(60), Some(85)));
    let s = b.get_thresholds(None, Some(85));
    assert!(s.enabled);
    b.enter_full_charge_mode();
    assert!(b.full_charge_mode);
    let s = b.get_thresholds(Some(100), Some(99));
    assert!(!s.enabled);
    assert_eq!(b.saved_start, Some(60));
    b.record_thresholds(50, 70);
    assert!(!b.full_charge_mode);
}

#[test]
fn step_writes_per_step() {
    assert_eq!(
        step_writes(PolicyStep::SetThresholds { start: 60, stop: 80 }, Some(90)),
        threshold_writes(60, 80, Some(90))
    );
    assert_eq!(
        step_writes(PolicyStep::ReassertThresholds { start: 60, stop: 100 }, None),
        vec![
            ThresholdWrite { file: ThresholdFile::End, value: 99 },
            ThresholdWrite { file: ThresholdFile::Start, value: 60 },
        ]
    );
    for step in [
        PolicyStep::ChargeToFull,
        PolicyStep::ChargeToFullTopOff,
        PolicyStep::ReassertChargeToFull,
        PolicyStep::ReassertTopOff,
    ] {
        assert_eq!(step_writes(step, Some(80)), charge_to_full_writes());
    }
    assert_eq!(step_writes(PolicyStep::Nothing, Some(80)), vec![]);
}

#[test]
fn linux_records_steps() {
    let mut b = backend(Some("BAT0"));
    b.record_step(PolicyStep::Nothing);
    assert_eq!((b.saved_start, b.saved_stop, b.full_charge_mode), (None, None, false));
    b.record_step(PolicyStep::ReassertThresholds { start: 55, stop: 75 });
    assert_eq!((b.saved_start, b.saved_stop, b.full_charge_mode), (Some(55), Some(75), false));
    b.record_step(PolicyStep::ReassertChargeToFull);
    assert_eq!((b.saved_start, b.saved_stop, b.full_charge_mode), (Some(55), Some(75), true));
    b.record_step(PolicyStep::SetThresholds { start: 60, stop: 80 });
    assert_eq!((b.saved_start, b.saved_stop, b.full_charge_mode), (Some(60), Some(80), false));
    assert_eq!(b.battery_name, Some("BAT0".to_string()));
}
