use vstd::prelude::*;

use crate::config::AppConfig;
use crate::status::{
    is_battery_full, is_topping_off, needs_full_charge_reassert, spec_is_battery_full,
    spec_is_topping_off, spec_needs_full_charge_reassert, BatteryStatus,
};

verus! {

/// The state of a charge-to-full session.
///
/// * `armed`: the user asked for a full charge; on battery power the session
///   waits for external power.
/// * `active`: the limits are released and the pack charges towards 100%.
/// * `verifying`: the pack is in its final top-off.
/// * `complete`: the pack was confirmed full and the saved thresholds were
///   restored.
/// * `was_charging`: the pack was seen charging during the active session.
#[derive(Clone, Copy, Debug, PartialEq, Eq, Structural)]
pub struct ChargeMonitor {
    pub armed: bool,
    pub active: bool,
    pub verifying: bool,
    pub complete: bool,
    pub was_charging: bool,
}

/// No session: the normal threshold mode that every start begins in.
pub open spec fn spec_idle() -> ChargeMonitor {
    ChargeMonitor { armed: false, active: false, verifying: false, complete: false, was_charging: false }
}

/// A session that confirmed a full pack.
pub open spec fn spec_completed() -> ChargeMonitor {
    ChargeMonitor { armed: false, active: false, verifying: false, complete: true, was_charging: false }
}

impl Default for ChargeMonitor {
    fn default() -> (m: Self)
        ensures
            m == spec_idle(),
    {
        ChargeMonitor { armed: false, active: false, verifying: false, complete: false, was_charging: false }
    }
}

impl ChargeMonitor {
    /// The states a session can be in: the top-off and the charging seen
    /// belong to an active session, and a completed session is neither armed,
    /// active nor topping off.
    pub open spec fn well_formed(self) -> bool {
        &&& self.verifying ==> self.active
        &&& self.was_charging ==> self.active
        &&& self.complete ==> !self.armed && !self.active && !self.verifying && !self.was_charging
    }

    /// The session after the limits were released for charging.
    pub open spec fn spec_activated(self) -> ChargeMonitor {
        ChargeMonitor { active: true, verifying: false, was_charging: false, ..self }
    }

    /// The session after the user asked for a full charge, on external power
    /// or not.
    pub open spec fn spec_armed(self, plugged: bool) -> ChargeMonitor {
        ChargeMonitor {
            armed: true,
            complete: false,
            verifying: false,
            was_charging: false,
            active: if plugged { self.active } else { false },
            ..self
        }
    }

    /// Ends every session: the saved thresholds were restored, or the session
    /// was cancelled or its completion acknowledged.
    pub fn clear(&mut self)
        ensures
            *final(self) == spec_idle(),
    {
        self.armed = false;
        self.active = false;
        self.verifying = false;
        self.complete = false;
        self.was_charging = false;
    }

    /// Marks the session complete once the saved thresholds were restored.
    pub fn finish(&mut self)
        ensures
            *final(self) == spec_completed(),
    {
        self.armed = false;
        self.active = false;
        self.verifying = false;
        self.complete = true;
        self.was_charging = false;
    }

    /// Records that the limits were released and the pack charges.
    pub fn activate(&mut self)
        ensures
            *final(self) == old(self).spec_activated(),
    {
        self.active = true;
        self.verifying = false;
        self.was_charging = false;
    }

    /// Records the user's request for a full charge. Off external power an
    /// active session stops and waits for it.
    pub fn arm(&mut self, plugged: bool)
        ensures
            *final(self) == old(self).spec_armed(plugged),
    {
        self.armed = true;
        self.complete = false;
        self.verifying = false;
        self.was_charging = false;
        if !plugged {
            self.active = false;
        }
    }
}

/// Pulling the plug cancels a session that runs, tops off or completed; an
/// armed session on battery power waits for external power instead.
pub open spec fn spec_should_cancel_on_unplug(m: ChargeMonitor) -> bool {
    m.active || m.verifying || m.complete
}

pub fn should_cancel_on_unplug(monitor: &ChargeMonitor) -> (r: bool)
    ensures
        r == spec_should_cancel_on_unplug(*monitor),
{
    monitor.active || monitor.verifying || monitor.complete
}

/// How a session starts once external power is present.
#[derive(Clone, Copy, Debug, PartialEq, Eq, Structural)]
pub enum SessionStart {
    /// The pack is already full: restore the saved thresholds and, once that
    /// succeeds, complete the session.
    Complete,
    /// Re-assert the released limits with the backend's quiet steps and mark
    /// the session active.
    Activate,
}

/// A full pack completes the session at once; any other starts charging.
pub open spec fn spec_session_start(s: BatteryStatus) -> SessionStart {
    if spec_is_battery_full(s) {
        SessionStart::Complete
    } else {
        SessionStart::Activate
    }
}

pub fn session_start(status: &BatteryStatus) -> (st: SessionStart)
    ensures
        st == spec_session_start(*status),
{
    if is_battery_full(status) {
        SessionStart::Complete
    } else {
        SessionStart::Activate
    }
}

/// The session state once a start was carried out.
pub open spec fn spec_started(m: ChargeMonitor, start: SessionStart) -> ChargeMonitor {
    match start {
        SessionStart::Complete => spec_completed(),
        SessionStart::Activate => m.spec_activated(),
    }
}

/// The steps of a tick that neither cancels nor begins a session, in the
/// order in which the caller performs them.
#[derive(Clone, Copy, Debug, PartialEq, Eq, Structural)]
pub struct TickSteps {
    /// Re-assert the charge-to-full limits with the backend's quiet steps.
    pub reapply: bool,
    /// The session state to store.
    pub next: ChargeMonitor,
    /// Announce that the top-off began.
    pub entered_verifying: bool,
    /// Restore the saved thresholds and, once that succeeds, complete the
    /// session.
    pub finish: bool,
    /// End the completed session.
    pub clear: bool,
}

/// What one tick of the charge monitor does with a battery reading.
#[derive(Clone, Copy, Debug, PartialEq, Eq, Structural)]
pub enum TickPlan {
    /// Restore the saved thresholds and, once that succeeds, end the session.
    Cancel,
    /// Begin the armed session now that external power is present, in the
    /// way given.
    Begin(SessionStart),
    /// Go on with the steps given.
    Continue(TickSteps),
}

/// The limits are re-asserted while an armed session waits, and while an
/// active session charges a pack on external power that is not yet full.
pub open spec fn spec_tick_reapply(m: ChargeMonitor, s: BatteryStatus) -> bool {
    ||| m.armed && !m.active && !m.complete
    ||| m.active && s.is_plugged && !spec_is_battery_full(s)
}

/// How a reading moves a session on that neither cancels nor begins.
pub open spec fn spec_tick_steps(m: ChargeMonitor, s: BatteryStatus) -> TickSteps {
    let reapply = spec_tick_reapply(m, s);
    if m.complete {
        TickSteps {
            reapply,
            next: m,
            entered_verifying: false,
            finish: false,
            clear: !s.is_plugged || s.percent < 90,
        }
    } else if !m.active {
        TickSteps { reapply, next: m, entered_verifying: false, finish: false, clear: false }
    } else if s.is_charging {
        TickSteps {
            reapply,
            next: ChargeMonitor {
                was_charging: true,
                verifying: m.verifying || spec_is_topping_off(s),
                ..m
            },
            entered_verifying: !m.verifying && spec_is_topping_off(s),
            finish: s.percent >= 100,
            clear: false,
        }
    } else if spec_is_battery_full(s) {
        TickSteps { reapply, next: m, entered_verifying: false, finish: true, clear: false }
    } else if spec_is_topping_off(s) && m.was_charging {
        TickSteps {
            reapply,
            next: ChargeMonitor { verifying: true, ..m },
            entered_verifying: !m.verifying,
            finish: false,
            clear: false,
        }
    } else {
        TickSteps { reapply, next: m, entered_verifying: false, finish: false, clear: false }
    }
}

/// What a tick does: cancel on a pulled plug, begin an armed session on
/// external power, or go on.
pub open spec fn spec_tick_plan(m: ChargeMonitor, s: BatteryStatus) -> TickPlan {
    if spec_should_cancel_on_unplug(m) && !s.is_plugged {
        TickPlan::Cancel
    } else if m.armed && !m.active && !m.complete && s.is_plugged {
        TickPlan::Begin(spec_session_start(s))
    } else {
        TickPlan::Continue(spec_tick_steps(m, s))
    }
}

/// Decides one tick of the charge monitor from the session state and a fresh
/// battery reading.
pub fn plan_tick(monitor: &ChargeMonitor, status: &BatteryStatus) -> (plan: TickPlan)
    ensures
        plan == spec_tick_plan(*monitor, *status),
{
    if should_cancel_on_unplug(monitor) && !status.is_plugged {
        return TickPlan::Cancel;
    }
    if monitor.armed && !monitor.active && !monitor.complete && status.is_plugged {
        return TickPlan::Begin(session_start(status));
    }
    let full = is_battery_full(status);
    let topping = is_topping_off(status);
    let reapply = (monitor.armed && !monitor.active && !monitor.complete) || (monitor.active
        && status.is_plugged && !full);
    let m = *monitor;
    let steps = if m.complete {
        TickSteps {
            reapply,
            next: m,
            entered_verifying: false,
            finish: false,
            clear: !status.is_plugged || status.percent < 90,
        }
    } else if !m.active {
        TickSteps { reapply, next: m, entered_verifying: false, finish: false, clear: false }
    } else if status.is_charging {
        let mut next = m;
        next.was_charging = true;
        if topping {
            next.verifying = true;
        }
        TickSteps {
            reapply,
            next,
            entered_verifying: !m.verifying && topping,
            finish: status.percent >= 100,
            clear: false,
        }
    } else if full {
        TickSteps { reapply, next: m, entered_verifying: false, finish: true, clear: false }
    } else if topping && m.was_charging {
        let mut next = m;
        next.verifying = true;
        TickSteps { reapply, next, entered_verifying: !m.verifying, finish: false, clear: false }
    } else {
        TickSteps { reapply, next: m, entered_verifying: false, finish: false, clear: false }
    };
    TickPlan::Continue(steps)
}

/// What the user's request for a full charge does, in order: store `next`;
/// where `release_first`, release the limits with the full charge-to-full
/// step; always switch to the top-off step (both are the user-initiated
/// steps, with a broadcast); then, on external power, start the session in the
/// way given by `start`.
#[derive(Clone, Copy, Debug, PartialEq, Eq, Structural)]
pub struct ChargeToFullPlan {
    pub next: ChargeMonitor,
    pub release_first: bool,
    pub start: Option<SessionStart>,
}

/// Decides the user's request for a full charge from the session state and a
/// fresh battery reading.
pub fn plan_charge_to_full(monitor: &ChargeMonitor, status: &BatteryStatus) -> (p: ChargeToFullPlan)
    ensures
        p.next == monitor.spec_armed(status.is_plugged),
        p.release_first == spec_needs_full_charge_reassert(*status),
        p.start == (if status.is_plugged { Some(spec_session_start(*status)) } else { None }),
{
    let mut next = *monitor;
    next.arm(status.is_plugged);
    ChargeToFullPlan {
        next,
        release_first: needs_full_charge_reassert(status),
        start: if status.is_plugged { Some(session_start(status)) } else { None },
    }
}

/// What the background policy maintainer does on each round.
#[derive(Clone, Copy, Debug, PartialEq, Eq, Structural)]
pub enum MaintainerAction {
    /// Re-assert the charge-to-full limits for the current reading.
    ReapplyFullCharge,
    /// Re-apply the saved thresholds, overriding other tools.
    MaintainThresholds { start: u8, stop: u8 },
    /// Leave the battery alone.
    Idle,
}

pub open spec fn spec_maintainer_action(m: ChargeMonitor, cfg: AppConfig) -> MaintainerAction {
    if m.active || m.armed {
        MaintainerAction::ReapplyFullCharge
    } else if cfg.thresholds_enabled {
        MaintainerAction::MaintainThresholds { start: cfg.start_threshold, stop: cfg.stop_threshold }
    } else {
        MaintainerAction::Idle
    }
}

/// A running or armed session keeps its released limits; otherwise enabled
/// thresholds are re-applied.
pub fn maintainer_action(monitor: &ChargeMonitor, cfg: &AppConfig) -> (a: MaintainerAction)
    ensures
        a == spec_maintainer_action(*monitor, *cfg),
{
    if monitor.active || monitor.armed {
        MaintainerAction::ReapplyFullCharge
    } else if cfg.thresholds_enabled {
        MaintainerAction::MaintainThresholds { start: cfg.start_threshold, stop: cfg.stop_threshold }
    } else {
        MaintainerAction::Idle
    }
}

/// The maintainer re-applies thresholds only outside a session, and then
/// exactly the enabled pair of the configuration.
pub proof fn lemma_maintainer_respects_session(m: ChargeMonitor, cfg: AppConfig)
    ensures
        spec_maintainer_action(m, cfg) matches MaintainerAction::MaintainThresholds { start, stop }
            ==> !m.active && !m.armed && cfg.spec_threshold_pair() == Some((start, stop)),
        spec_maintainer_action(m, cfg) is Idle ==> cfg.spec_threshold_pair() is None,
{
}

/// Every operation on a session keeps it well formed: ending, completing,
/// arming, activating a session that is not complete, and every tick.
pub proof fn lemma_operations_keep_well_formed(m: ChargeMonitor, s: BatteryStatus, plugged: bool)
    requires
        m.well_formed(),
    ensures
        spec_idle().well_formed(),
        spec_completed().well_formed(),
        m.spec_armed(plugged).well_formed(),
        !m.complete ==> m.spec_activated().well_formed(),
        m.spec_armed(plugged).spec_activated().well_formed(),
        spec_tick_plan(m, s) matches TickPlan::Continue(steps) ==> steps.next.well_formed(),
        spec_tick_plan(m, s) matches TickPlan::Begin(st) ==> !m.complete && spec_started(m, st).well_formed(),
{
}

/// Pulling the plug cancels a running, topping-off or completed session.
pub proof fn lemma_unplug_cancels(m: ChargeMonitor, s: BatteryStatus)
    requires
        m.active || m.verifying || m.complete,
        !s.is_plugged,
    ensures
        spec_tick_plan(m, s) == TickPlan::Cancel,
{
}

/// An armed session on battery power is not cancelled: it keeps the limits
/// released and waits, unchanged, for external power.
pub proof fn lemma_armed_on_battery_waits(m: ChargeMonitor, s: BatteryStatus)
    requires
        m.well_formed(),
        m.armed,
        !m.active,
        !m.complete,
        !s.is_plugged,
    ensures
        spec_tick_plan(m, s) == TickPlan::Continue(
            TickSteps { reapply: true, next: m, entered_verifying: false, finish: false, clear: false },
        ),
{
}

/// An armed session begins as soon as external power is present: at once
/// complete where the pack is already full, charging otherwise.
pub proof fn lemma_armed_on_power_begins(m: ChargeMonitor, s: BatteryStatus)
    requires
        m.armed,
        !m.active,
        !m.complete,
        s.is_plugged,
    ensures
        spec_tick_plan(m, s) == TickPlan::Begin(spec_session_start(s)),
{
}

/// An active session completes when the pack reaches a rounded 100% while
/// charging, or counts as full once it stopped charging; it never completes
/// without being active.
pub proof fn lemma_session_completion(m: ChargeMonitor, s: BatteryStatus)
    requires
        m.well_formed(),
    ensures
        m.active && s.is_plugged && s.is_charging && s.percent >= 100 ==> (spec_tick_plan(m, s)
            matches TickPlan::Continue(st) && st.finish),
        m.active && !s.is_charging && spec_is_battery_full(s) ==> (spec_tick_plan(m, s)
            matches TickPlan::Continue(st) && st.finish),
        spec_tick_plan(m, s) matches TickPlan::Continue(st) && st.finish ==> m.active,
{
}

/// A completed session ends only when the pack falls below 90% on external
/// power (pulling the plug cancels it instead), and no tick leaves a full pack
/// of an active session with re-asserted limits.
pub proof fn lemma_completed_session_ends(m: ChargeMonitor, s: BatteryStatus)
    requires
        m.well_formed(),
    ensures
        spec_tick_plan(m, s) matches TickPlan::Continue(st) && st.clear ==> m.complete
            && s.is_plugged && s.percent < 90,
        m.complete && s.is_plugged && s.percent < 90 ==> (spec_tick_plan(m, s) matches TickPlan::Continue(st)
            && st.clear),
        m.active && spec_is_battery_full(s) ==> (spec_tick_plan(m, s) matches TickPlan::Continue(st)
            && !st.reapply),
{
}

/// A session starts complete exactly when the pack is full; completing leads to
/// the completed state and activating to the active one, both well formed
/// from any well-formed session that is not complete.
pub proof fn lemma_session_start(m: ChargeMonitor, s: BatteryStatus)
    requires
        m.well_formed(),
        !m.complete,
    ensures
        spec_session_start(s) == SessionStart::Complete <==> spec_is_battery_full(s),
        spec_started(m, SessionStart::Complete) == spec_completed(),
        spec_started(m, SessionStart::Activate) == m.spec_activated(),
        spec_started(m, SessionStart::Complete).well_formed(),
        spec_started(m, SessionStart::Activate).well_formed(),
{
}

/// A request for a full charge arms the session and clears its completion; on
/// battery power nothing runs and the armed session waits for external power
/// (a tick neither cancels nor begins it), while on external power it starts
/// at once, into a well-formed state. The limits are released first only on
/// external power while the pack does not charge.
pub proof fn lemma_charge_to_full_request(m: ChargeMonitor, s: BatteryStatus, later: BatteryStatus)
    requires
        m.well_formed(),
        !later.is_plugged,
    ensures
        ({
            let next = m.spec_armed(s.is_plugged);
            &&& next.well_formed()
            &&& next.armed && !next.complete
            &&& !s.is_plugged ==> !next.active && spec_tick_plan(next, later) is Continue
            &&& s.is_plugged ==> spec_started(next, spec_session_start(s)).well_formed()
            &&& spec_needs_full_charge_reassert(s) ==> s.is_plugged && !s.is_charging
        }),
{
}

/// A tick cancels only a session that runs, tops off or completed, and only
/// off external power; every such session is cancelled when the plug is
/// pulled. Without a session a tick does nothing at all, on battery or not,
/// and an armed session that waits for external power is never cancelled.
pub proof fn lemma_cancel_needs_session(m: ChargeMonitor, s: BatteryStatus)
    ensures
        spec_tick_plan(m, s) is Cancel ==> (m.active || m.verifying || m.complete) && !s.is_plugged,
        (m.active || m.verifying || m.complete) && !s.is_plugged ==> spec_tick_plan(m, s) is Cancel,
        spec_should_cancel_on_unplug(m) ==> m.active || m.verifying || m.complete,
        !spec_should_cancel_on_unplug(ChargeMonitor { armed: true, active: false, verifying: false, complete: false, was_charging: m.was_charging }),
        !spec_should_cancel_on_unplug(spec_idle()),
        spec_tick_plan(spec_idle(), s) == TickPlan::Continue(
            TickSteps { reapply: false, next: spec_idle(), entered_verifying: false, finish: false, clear: false },
        ),
{
}

/// The user's request for a full charge releases the limits first exactly on
/// external power while the pack does not charge and its exact level is below
/// 99.95%; the operating system's "full" flag, the rounded level and the time
/// left play no part. A pack held below 99.95% on external power, which the
/// system reports as full, is therefore released first.
pub proof fn lemma_release_first_rule(
    m: ChargeMonitor,
    s: BatteryStatus,
    full: bool,
    percent: u8,
    time: Option<u64>,
    level: u8,
    centi: u16,
    time_to_empty: Option<u64>,
)
    ensures
        spec_needs_full_charge_reassert(s) <==> (s.is_plugged && !s.is_charging && s.percent_exact_centi < 9995),
        spec_needs_full_charge_reassert(BatteryStatus { is_full: full, percent, time_remaining_sec: time, ..s })
            == spec_needs_full_charge_reassert(s),
        centi < 9995 ==> spec_needs_full_charge_reassert(
            crate::status::spec_battery_status(level, centi, crate::status::PowerState::Full, time_to_empty),
        ),
{
}

} // verus!
