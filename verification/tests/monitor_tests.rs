use thinkcharge::config::AppConfig;
use thinkcharge::monitor::{
    maintainer_action, plan_charge_to_full, plan_tick, session_start, should_cancel_on_unplug,
    ChargeMonitor, ChargeToFullPlan, MaintainerAction, SessionStart, TickPlan, TickSteps,
};
use thinkcharge::status::BatteryStatus;

fn reading(percent: u8, centi: u16, charging: bool, plugged: bool) -> BatteryStatus {
    BatteryStatus {
        percent,
        percent_exact_centi: centi,
        is_charging: charging,
        is_plugged: plugged,
        is_full: false,
        time_remaining_sec: None,
    }
}

fn monitor(armed: bool, active: bool, verifying: bool, complete: bool, was_charging: bool) -> ChargeMonitor {
    ChargeMonitor { armed, active, verifying, complete, was_charging }
}

fn steps(plan: TickPlan) -> TickSteps {
    match plan {
        TickPlan::Continue(s) => s,
        other => panic!("expected steps, got {:?}", other),
    }
}

#[test]
fn default_monitor_is_idle() {
    let m = ChargeMonitor::default();
    assert_eq!(m, monitor(false, false, false, false, false));
}

#[test]
fn cancel_on_unplug_rule() {
    assert!(!should_cancel_on_unplug(&monitor(true, false, false, false, false)));
    assert!(should_cancel_on_unplug(&monitor(false, true, false, false, false)));
    assert!(should_cancel_on_unplug(&monitor(false, true, true, false, false)));
    assert!(should_cancel_on_unplug(&monitor(false, false, false, true, false)));
}

#[test]
fn unplug_cancels_active_session() {
    let m = monitor(true, true, false, false, true);
    assert_eq!(plan_tick(&m, &reading(70, 7000, false, false)), TickPlan::Cancel);
    let done = monitor(false, false, false, true, false);
    assert_eq!(plan_tick(&done, &reading(95, 9500, false, false)), TickPlan::Cancel);
}

#[test]
fn armed_on_battery_waits_with_limits_released() {
    let m = monitor(true, false, false, false, false);
    let s = steps(plan_tick(&m, &reading(50, 5000, false, false)));
    assert!(s.reapply);
    assert_eq!(s.next, m);
    assert!(!s.finish && !s.clear && !s.entered_verifying);
}

#[test]
fn armed_on_power_begins() {
    let m = monitor(true, false, false, false, false);
    assert_eq!(plan_tick(&m, &reading(50, 5000, false, true)), TickPlan::Begin(SessionStart::Activate));
}

#[test]
fn armed_on_power_with_full_pack_completes_at_once() {
    let m = monitor(true, false, false, false, false);
    assert_eq!(plan_tick(&m, &reading(100, 10000, true, true)), TickPlan::Begin(SessionStart::Complete));
    assert_eq!(plan_tick(&m, &reading(99, 9960, false, true)), TickPlan::Begin(SessionStart::Complete));
    assert_eq!(plan_tick(&m, &reading(99, 9940, false, true)), TickPlan::Begin(SessionStart::Activate));
    assert_eq!(session_start(&reading(100, 10000, false, true)), SessionStart::Complete);
    assert_eq!(session_start(&reading(80, 8000, true, true)), SessionStart::Activate);
}

#[test]
fn charge_to_full_request_on_battery_waits() {
    let m = monitor(false, true, true, false, true);
    let p = plan_charge_to_full(&m, &reading(60, 6000, false, false));
    assert_eq!(
        p,
        ChargeToFullPlan { next: monitor(true, false, false, false, false), release_first: false, start: None }
    );
}

#[test]
fn charge_to_full_request_on_power() {
    let idle = ChargeMonitor::default();
    let p = plan_charge_to_full(&idle, &reading(70, 7000, false, true));
    assert_eq!(p.next, monitor(true, false, false, false, false));
    assert!(p.release_first);
    assert_eq!(p.start, Some(SessionStart::Activate));
    let p = plan_charge_to_full(&idle, &reading(70, 7000, true, true));
    assert!(!p.release_first);
    assert_eq!(p.start, Some(SessionStart::Activate));
    let done = monitor(false, false, false, true, false);
    let p = plan_charge_to_full(&done, &reading(100, 10000, false, true));
    assert_eq!(p.next, monitor(true, false, false, false, false));
    assert!(!p.release_first);
    assert_eq!(p.start, Some(SessionStart::Complete));
    let running = monitor(true, true, true, false, true);
    let p = plan_charge_to_full(&running, &reading(99, 9900, true, true));
    assert_eq!(p.next, monitor(true, true, false, false, false));
}

#[test]
fn charging_session_enters_top_off() {
    let m = monitor(true, true, false, false, false);
    let s = steps(plan_tick(&m, &reading(98, 9860, true, true)));
    assert!(s.reapply);
    assert!(s.entered_verifying);
    assert_eq!(s.next, monitor(true, true, true, false, true));
    assert!(!s.finish);
    let again = steps(plan_tick(&s.next, &reading(99, 9900, true, true)));
    assert!(!again.entered_verifying);
    assert_eq!(again.next, s.next);
}

#[test]
fn charging_session_below_top_off_only_marks_charging() {
    let m = monitor(false, true, false, false, false);
    let s = steps(plan_tick(&m, &reading(80, 8000, true, true)));
    assert_eq!(s.next, monitor(false, true, false, false, true));
    assert!(!s.entered_verifying && !s.finish && s.reapply);
}

#[test]
fn hundred_percent_while_charging_finishes() {
    let m = monitor(false, true, true, false, true);
    let s = steps(plan_tick(&m, &reading(100, 9970, true, true)));
    assert!(s.finish);
    assert!(!s.reapply);
}

#[test]
fn full_after_charging_stops_finishes() {
    let m = monitor(false, true, true, false, true);
    let s = steps(plan_tick(&m, &reading(99, 9960, false, true)));
    assert!(s.finish);
    assert!(!s.reapply);
    assert_eq!(s.next, m);
}

#[test]
fn top_off_seen_after_charging_stops() {
    let m = monitor(false, true, false, false, true);
    let s = steps(plan_tick(&m, &reading(98, 9870, false, true)));
    assert!(s.entered_verifying);
    assert_eq!(s.next, monitor(false, true, true, false, true));
    assert!(!s.finish);
    let never_charged = monitor(false, true, false, false, false);
    let s = steps(plan_tick(&never_charged, &reading(98, 9870, false, true)));
    assert!(!s.entered_verifying);
    assert_eq!(s.next, never_charged);
}

#[test]
fn completed_session_clears_below_ninety_on_power() {
    let m = monitor(false, false, false, true, false);
    let s = steps(plan_tick(&m, &reading(89, 8900, false, true)));
    assert!(s.clear && !s.reapply && !s.finish);
    let s = steps(plan_tick(&m, &reading(90, 9000, false, true)));
    assert!(!s.clear);
}

#[test]
fn idle_monitor_does_nothing() {
    let m = ChargeMonitor::default();
    let s = steps(plan_tick(&m, &reading(50, 5000, true, true)));
    assert_eq!(s, TickSteps { reapply: false, next: m, entered_verifying: false, finish: false, clear: false });
}

#[test]
fn transitions() {
    let mut m = monitor(false, false, false, true, false);
    m.arm(true);
    assert_eq!(m, monitor(true, false, false, false, false));
    m.activate();
    assert_eq!(m, monitor(true, true, false, false, false));
    m.arm(false);
    assert_eq!(m, monitor(true, false, false, false, false));
    m.finish();
    assert_eq!(m, monitor(false, false, false, true, false));
    m.clear();
    assert_eq!(m, ChargeMonitor::default());
}

#[test]
fn arming_on_power_keeps_running_session() {
    let mut m = monitor(true, true, true, false, true);
    m.arm(true);
    assert_eq!(m, monitor(true, true, false, false, false));
}

#[test]
fn maintainer_decisions() {
    let cfg = AppConfig::default();
    assert_eq!(maintainer_action(&monitor(true, false, false, false, false), &cfg), MaintainerAction::ReapplyFullCharge);
    assert_eq!(maintainer_action(&monitor(false, true, false, false, false), &cfg), MaintainerAction::ReapplyFullCharge);
    assert_eq!(
        maintainer_action(&ChargeMonitor::default(), &cfg),
        MaintainerAction::MaintainThresholds { start: 75, stop: 80 }
    );
    let mut off = cfg;
    off.thresholds_enabled = false;
    assert_eq!(maintainer_action(&ChargeMonitor::default(), &off), MaintainerAction::Idle);
    assert_eq!(
        maintainer_action(&monitor(false, false, false, true, false), &cfg),
        MaintainerAction::MaintainThresholds { start: 75, stop: 80 }
    );
}
