use thinkcharge::text::wide;
use thinkcharge::backend::PolicyStep;
use thinkcharge::windows::{
    apply_charge_to_full_ioctl, apply_thresholds_ioctl, battery_key_path, data_paths,
    locate_battery_key, read_registry_thresholds, release_charge_limit_ioctl, windows_operations,
    write_charge_to_full_registry, write_release_registry, write_threshold_registry,
    DataPathScan, IoctlCommand, PwrmgrLocation, RegistryField, RegistryReading, RegistryWrite,
    SubkeyScan, WindowsOperation, WindowsThinkPadBackend, AUTOMATIC_MODE, IOCTL_SELECT_MODE,
    IOCTL_SET_START, IOCTL_SET_STOP, THRESHOLD_MODE_BATTERY1, THRESHOLD_MODE_BATTERY2,
};

fn cmd(code: u32, value: u32) -> IoctlCommand {
    IoctlCommand { code, value }
}

#[test]
fn threshold_requests_send_stop_before_start() {
    assert_eq!(
        apply_thresholds_ioctl(75, 80, false),
        vec![
            cmd(0x22261C, 0x101),
            cmd(0x222638, 0x100 + 80),
            cmd(0x222630, 0x100 + 75),
        ]
    );
    assert_eq!(apply_thresholds_ioctl(95, 100, false)[1], cmd(IOCTL_SET_STOP, 0x100 | 99));
}

#[test]
fn charge_to_full_requests() {
    assert_eq!(
        apply_charge_to_full_ioctl(false),
        vec![
            cmd(IOCTL_SELECT_MODE, THRESHOLD_MODE_BATTERY1),
            cmd(IOCTL_SET_STOP, 0x100),
            cmd(IOCTL_SET_START, 0x163),
        ]
    );
}

#[test]
fn release_requests_end_in_automatic_mode() {
    let c = release_charge_limit_ioctl(false);
    assert_eq!(c.len(), 4);
    assert_eq!(c[3], cmd(IOCTL_SELECT_MODE, AUTOMATIC_MODE));
    assert_eq!(c[1], cmd(IOCTL_SET_STOP, 0x100));
    assert_eq!(c[2], cmd(IOCTL_SET_START, 0x100));
}

#[test]
fn registry_writes() {
    assert_eq!(
        write_threshold_registry(60, 80),
        vec![
            RegistryWrite { field: RegistryField::ChargeStartPercentage, data: 60 },
            RegistryWrite { field: RegistryField::ChargeStopPercentage, data: 80 },
            RegistryWrite { field: RegistryField::ChargeStartControl, data: 1 },
            RegistryWrite { field: RegistryField::ChargeStopControl, data: 1 },
        ]
    );
    let full = write_charge_to_full_registry();
    assert_eq!(full[0].data, 99);
    assert_eq!(full[1].data, 100);
    assert_eq!(full[3], RegistryWrite { field: RegistryField::ChargeStopControl, data: 0 });
    assert_eq!(
        write_release_registry(),
        vec![
            RegistryWrite { field: RegistryField::ChargeStartControl, data: 0 },
            RegistryWrite { field: RegistryField::ChargeStopControl, data: 0 },
        ]
    );
    assert_eq!(RegistryField::ChargeStopControl.name(), "ChargeStopControl");
    assert_eq!(RegistryField::ChargeStartPercentage.name(), "ChargeStartPercentage");
}

#[test]
fn registry_reading_defaults_and_clamps() {
    let missing = RegistryReading { start: None, stop: None, start_control: None, stop_control: None };
    assert_eq!(read_registry_thresholds(&missing), (Some(0), Some(100), false));
    let big = RegistryReading { start: Some(300), stop: Some(70000), start_control: Some(1), stop_control: Some(5) };
    assert_eq!(read_registry_thresholds(&big), (Some(99), Some(100), true));
    let one_off = RegistryReading { start: Some(60), stop: Some(80), start_control: Some(1), stop_control: Some(0) };
    assert_eq!(read_registry_thresholds(&one_off), (Some(60), Some(80), false));
}

#[test]
fn new_backend_takes_enabled_registry_pair() {
    let b = WindowsThinkPadBackend::new(Some((Some(60), Some(80), true)));
    assert_eq!((b.saved_start, b.saved_stop, b.full_charge_mode), (Some(60), Some(80), false));
    let b = WindowsThinkPadBackend::new(Some((Some(60), Some(80), false)));
    assert_eq!((b.saved_start, b.saved_stop), (None, None));
    let b = WindowsThinkPadBackend::new(None);
    assert_eq!((b.saved_start, b.saved_stop), (None, None));
}

#[test]
fn windows_threshold_state() {
    let b = WindowsThinkPadBackend::new(None);
    let s = b.get_thresholds(false, Some((Some(1), Some(2), true)));
    assert!(!s.supported && !s.enabled);
    assert_eq!(s.message, "Lenovo PM driver not available. Try running as Administrator.");
    assert_eq!(s.backend, "windows-ibmpmdrv");
    let s = b.get_thresholds(true, Some((Some(55), Some(85), true)));
    assert!(s.supported && s.enabled);
    assert_eq!((s.start, s.stop), (Some(55), Some(85)));
    assert_eq!(s.message, "Using Lenovo IBMPmDrv + PWRMGRV (overrides Vantage limits).");
    let s = b.get_thresholds(true, None);
    assert!(!s.enabled);
    assert_eq!((s.start, s.stop), (None, None));
}

#[test]
fn windows_set_then_report() {
    let mut b = WindowsThinkPadBackend::new(None);
    b.record_thresholds(65, 90);
    let s = b.get_thresholds(true, Some((Some(10), Some(20), false)));
    assert!(s.enabled);
    assert_eq!((s.start, s.stop), (Some(65), Some(90)));
    b.enter_full_charge_mode();
    let s = b.get_thresholds(true, None);
    assert!(!s.enabled);
    assert_eq!(s.start, Some(65));
}

#[test]
fn locates_first_key_with_values() {
    let scans = vec![
        DataPathScan::Unreadable("The system cannot find the file specified. (os error 2)".to_string()),
        DataPathScan::Listed(vec![
            SubkeyScan { name: "Other".to_string(), has_threshold_values: false },
            SubkeyScan { name: "1".to_string(), has_threshold_values: true },
            SubkeyScan { name: "2".to_string(), has_threshold_values: true },
        ]),
    ];
    let loc = locate_battery_key(&scans).unwrap();
    assert_eq!(loc.data_path, "SOFTWARE\\Lenovo\\PWRMGRV\\ConfKeys\\Data");
    assert_eq!(loc.battery_key, "1");
    assert_eq!(battery_key_path(&loc), "SOFTWARE\\Lenovo\\PWRMGRV\\ConfKeys\\Data\\1");
}

#[test]
fn missing_key_names_last_failure() {
    let scans = vec![
        DataPathScan::Listed(vec![]),
        DataPathScan::Unreadable("access denied".to_string()),
    ];
    assert_eq!(
        locate_battery_key(&scans).err(),
        Some("No Lenovo battery configuration key found in PWRMGRV registry (SOFTWARE\\Lenovo\\PWRMGRV\\ConfKeys\\Data: access denied). Install Lenovo Power Manager / Vantage battery drivers.".to_string())
    );
    let scans = vec![
        DataPathScan::Unreadable("x".to_string()),
        DataPathScan::Listed(vec![SubkeyScan { name: "k".to_string(), has_threshold_values: false }]),
    ];
    assert_eq!(
        locate_battery_key(&scans).err(),
        Some("No Lenovo battery configuration key found in PWRMGRV registry (No battery key under SOFTWARE\\Lenovo\\PWRMGRV\\ConfKeys\\Data). Install Lenovo Power Manager / Vantage battery drivers.".to_string())
    );
}

#[test]
fn first_data_path_wins() {
    let scans = vec![
        DataPathScan::Listed(vec![SubkeyScan { name: "A".to_string(), has_threshold_values: true }]),
        DataPathScan::Listed(vec![SubkeyScan { name: "B".to_string(), has_threshold_values: true }]),
    ];
    let loc: PwrmgrLocation = locate_battery_key(&scans).unwrap();
    assert_eq!(loc.data_path, "SOFTWARE\\WOW6432Node\\Lenovo\\PWRMGRV\\ConfKeys\\Data");
    assert_eq!(loc.battery_key, "A");
    assert_eq!(data_paths().len(), 2);
}

#[test]
fn wide_strings_are_utf16_with_terminator() {
    assert_eq!(wide("IBMPMDRV"), "IBMPMDRV".encode_utf16().chain(std::iter::once(0)).collect::<Vec<u16>>());
    assert_eq!(wide(""), vec![0u16]);
    let s = "\\\\.\\IBMPmDrv \u{1F50B}é";
    assert_eq!(wide(s), s.encode_utf16().chain(std::iter::once(0)).collect::<Vec<u16>>());
}

#[test]
fn second_battery_gets_its_own_requests() {
    assert_eq!(
        apply_thresholds_ioctl(75, 100, true),
        vec![
            cmd(IOCTL_SELECT_MODE, THRESHOLD_MODE_BATTERY1),
            cmd(IOCTL_SET_STOP, 0x100 + 99),
            cmd(IOCTL_SET_START, 0x100 + 75),
            cmd(IOCTL_SELECT_MODE, THRESHOLD_MODE_BATTERY2),
            cmd(IOCTL_SET_STOP, 0x200 + 99),
            cmd(IOCTL_SET_START, 0x200 + 75),
        ]
    );
    assert_eq!(
        apply_charge_to_full_ioctl(true),
        vec![
            cmd(IOCTL_SELECT_MODE, 0x101),
            cmd(IOCTL_SET_STOP, 0x100),
            cmd(IOCTL_SET_START, 0x163),
            cmd(IOCTL_SELECT_MODE, 0x201),
            cmd(IOCTL_SET_STOP, 0x200),
            cmd(IOCTL_SET_START, 0x263),
        ]
    );
    assert_eq!(
        release_charge_limit_ioctl(true),
        vec![
            cmd(IOCTL_SELECT_MODE, 0x101),
            cmd(IOCTL_SET_STOP, 0x100),
            cmd(IOCTL_SET_START, 0x100),
            cmd(IOCTL_SELECT_MODE, 0x201),
            cmd(IOCTL_SET_STOP, 0x200),
            cmd(IOCTL_SET_START, 0x200),
            cmd(IOCTL_SELECT_MODE, AUTOMATIC_MODE),
        ]
    );
}

/// Applies registry writes to a reading, as the key would hold them.
fn written(mut r: RegistryReading, writes: &[RegistryWrite]) -> RegistryReading {
    for w in writes {
        match w.field {
            RegistryField::ChargeStartPercentage => r.start = Some(w.data),
            RegistryField::ChargeStopPercentage => r.stop = Some(w.data),
            RegistryField::ChargeStartControl => r.start_control = Some(w.data),
            RegistryField::ChargeStopControl => r.stop_control = Some(w.data),
        }
    }
    r
}

#[test]
fn registry_reads_back_what_was_written() {
    let before = RegistryReading { start: Some(40), stop: None, start_control: Some(0), stop_control: None };
    let after = written(before, &write_threshold_registry(60, 80));
    assert_eq!(read_registry_thresholds(&after), (Some(60), Some(80), true));
    let after = written(before, &write_charge_to_full_registry());
    assert_eq!(read_registry_thresholds(&after), (Some(99), Some(100), false));
    let set = written(before, &write_threshold_registry(55, 85));
    let released = written(set, &write_release_registry());
    assert_eq!(read_registry_thresholds(&released), (Some(55), Some(85), false));
}

#[test]
fn windows_operations_in_order() {
    assert_eq!(
        windows_operations(PolicyStep::SetThresholds { start: 60, stop: 80 }),
        vec![
            WindowsOperation::WriteThresholdRegistry { start: 60, stop: 80 },
            WindowsOperation::SendThresholdRequests { start: 60, stop: 80 },
            WindowsOperation::Broadcast,
        ]
    );
    assert_eq!(
        windows_operations(PolicyStep::ChargeToFull),
        vec![WindowsOperation::SendReleaseRequests, WindowsOperation::WriteChargeToFullRegistry, WindowsOperation::SendChargeToFullRequests, WindowsOperation::Broadcast]
    );
    assert_eq!(
        windows_operations(PolicyStep::ChargeToFullTopOff),
        vec![WindowsOperation::WriteReleaseRegistry, WindowsOperation::SendReleaseRequests, WindowsOperation::Broadcast]
    );
    assert_eq!(
        windows_operations(PolicyStep::ReassertThresholds { start: 60, stop: 80 }),
        vec![WindowsOperation::SendThresholdRequests { start: 60, stop: 80 }]
    );
    assert_eq!(
        windows_operations(PolicyStep::ReassertChargeToFull),
        vec![WindowsOperation::SendReleaseRequests, WindowsOperation::SendChargeToFullRequests]
    );
    assert_eq!(windows_operations(PolicyStep::ReassertTopOff), vec![WindowsOperation::SendReleaseRequests]);
    assert_eq!(windows_operations(PolicyStep::Nothing), vec![]);
}

#[test]
fn windows_records_steps() {
    let mut b = WindowsThinkPadBackend::new(None);
    b.record_step(PolicyStep::Nothing);
    assert_eq!(b, WindowsThinkPadBackend::new(None));
    b.record_step(PolicyStep::ReassertThresholds { start: 50, stop: 70 });
    assert_eq!((b.saved_start, b.saved_stop, b.full_charge_mode), (Some(50), Some(70), false));
    b.record_step(PolicyStep::ReassertTopOff);
    assert_eq!((b.saved_start, b.saved_stop, b.full_charge_mode), (Some(50), Some(70), true));
    b.record_step(PolicyStep::SetThresholds { start: 60, stop: 80 });
    assert_eq!((b.saved_start, b.saved_stop, b.full_charge_mode), (Some(60), Some(80), false));
    b.record_step(PolicyStep::ChargeToFull);
    assert!(b.full_charge_mode);
}
