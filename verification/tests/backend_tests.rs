use thinkcharge::backend::{maintain_policy_step, reassert_step, PolicyStep, StubBackend};

#[test]
fn reassert_uses_top_off_when_asked() {
    assert_eq!(reassert_step(true), PolicyStep::ReassertTopOff);
    assert_eq!(reassert_step(false), PolicyStep::ReassertChargeToFull);
}

#[test]
fn maintain_policy_prefers_charge_to_full() {
    assert_eq!(maintain_policy_step(true, true, 60, 80), PolicyStep::ReassertTopOff);
    assert_eq!(maintain_policy_step(true, false, 60, 80), PolicyStep::ReassertTopOff);
    assert_eq!(maintain_policy_step(false, true, 60, 80), PolicyStep::ReassertThresholds { start: 60, stop: 80 });
    assert_eq!(maintain_policy_step(false, false, 60, 80), PolicyStep::Nothing);
}

#[test]
fn stub_backend_supports_nothing() {
    let mut b = StubBackend;
    let s = b.get_thresholds();
    assert!(!s.supported && !s.enabled);
    assert_eq!(s.start, None);
    assert_eq!(s.stop, None);
    assert_eq!(s.backend, "stub");
    assert_eq!(s.message, "Battery threshold control is not supported on this platform.");
    assert_eq!(b.set_thresholds(60, 80), Err("Unsupported platform".to_string()));
    assert_eq!(b.charge_to_full(), Err("Unsupported platform".to_string()));
    assert_eq!(b.restore_thresholds(60, 80), Err("Unsupported platform".to_string()));
}
