use vstd::prelude::*;

use crate::monitor::ChargeMonitor;

verus! {

/// The persisted settings of the application, without the widget's scale and
/// opacity (fractional values that the caller keeps beside it).
///
/// The four `charge_to_full_*` flags mirror the charge-to-full session of the
/// running process; they are never persisted.
#[derive(Clone, Copy, Debug, PartialEq, Eq, Structural)]
pub struct AppConfig {
    pub start_threshold: u8,
    pub stop_threshold: u8,
    pub thresholds_enabled: bool,
    pub show_desktop_widget: bool,
    pub widget_x: i32,
    pub widget_y: i32,
    pub charge_to_full_active: bool,
    pub charge_to_full_armed: bool,
    pub charge_to_full_complete: bool,
    pub charge_to_full_verifying: bool,
    pub show_battery_percent: bool,
    pub show_power_source: bool,
    pub show_charging_status: bool,
    pub use_status_icons: bool,
    pub match_os_theme: bool,
}

/// The settings of a first start.
pub open spec fn spec_default_config() -> AppConfig {
    AppConfig {
        start_threshold: 75,
        stop_threshold: 80,
        thresholds_enabled: true,
        show_desktop_widget: true,
        widget_x: 40,
        widget_y: 40,
        charge_to_full_active: false,
        charge_to_full_armed: false,
        charge_to_full_complete: false,
        charge_to_full_verifying: false,
        show_battery_percent: true,
        show_power_source: true,
        show_charging_status: true,
        use_status_icons: true,
        match_os_theme: true,
    }
}

impl Default for AppConfig {
    fn default() -> (c: Self)
        ensures
            c == spec_default_config(),
    {
        AppConfig {
            start_threshold: 75,
            stop_threshold: 80,
            thresholds_enabled: true,
            show_desktop_widget: true,
            widget_x: 40,
            widget_y: 40,
            charge_to_full_active: false,
            charge_to_full_armed: false,
            charge_to_full_complete: false,
            charge_to_full_verifying: false,
            show_battery_percent: true,
            show_power_source: true,
            show_charging_status: true,
            use_status_icons: true,
            match_os_theme: true,
        }
    }
}

/// A stored configuration that lacks the status-icons setting turns them on.
pub fn default_use_status_icons() -> (r: bool)
    ensures
        r,
{
    true
}

/// `a - b`, or 0 where `b` exceeds `a`.
pub open spec fn saturating_sub(a: int, b: int) -> int {
    if a >= b { a - b } else { 0 }
}

pub open spec fn start_out_of_range(c: AppConfig) -> bool {
    c.start_threshold > 99
}

pub open spec fn stop_out_of_range(c: AppConfig) -> bool {
    c.stop_threshold < 1 || c.stop_threshold > 100
}

pub open spec fn gap_too_small(c: AppConfig) -> bool {
    saturating_sub(c.stop_threshold as int, c.start_threshold as int) < 4
}

/// The thresholds of a configuration are acceptable: the start is at most 99,
/// the stop lies in 1..=100, and the stop is at least 4 points above the start.
pub open spec fn thresholds_valid(c: AppConfig) -> bool {
    !start_out_of_range(c) && !stop_out_of_range(c) && !gap_too_small(c)
}

impl AppConfig {
    /// Checks the charge thresholds, in this order: the start's range, the
    /// stop's range, then the gap between them; the first rule broken gives
    /// the error.
    pub fn validate(&self) -> (r: Result<(), String>)
        ensures
            r is Ok <==> thresholds_valid(*self),
            start_out_of_range(*self) ==> (r matches Err(e) && e@
                == "Start threshold must be between 0 and 99"@),
            !start_out_of_range(*self) && stop_out_of_range(*self) ==> (r matches Err(e) && e@
                == "Stop threshold must be between 1 and 100"@),
            !start_out_of_range(*self) && !stop_out_of_range(*self) && gap_too_small(*self)
                ==> (r matches Err(e) && e@ == "Stop threshold must be at least 4% above start threshold"@),
    {
        if self.start_threshold > 99 {
            return Err(String::from_str("Start threshold must be between 0 and 99"));
        }
        if self.stop_threshold < 1 || self.stop_threshold > 100 {
            return Err(String::from_str("Stop threshold must be between 1 and 100"));
        }
        let gap: u8 = if self.stop_threshold >= self.start_threshold {
            self.stop_threshold - self.start_threshold
        } else {
            0
        };
        if gap < 4 {
            return Err(String::from_str("Stop threshold must be at least 4% above start threshold"));
        }
        Ok(())
    }

    /// The configuration with the charge-to-full session flags cleared.
    pub open spec fn spec_without_session(self) -> AppConfig {
        AppConfig {
            charge_to_full_active: false,
            charge_to_full_armed: false,
            charge_to_full_complete: false,
            charge_to_full_verifying: false,
            ..self
        }
    }

    /// No charge-to-full session flag is set.
    pub open spec fn has_no_session(self) -> bool {
        !self.charge_to_full_active && !self.charge_to_full_armed
            && !self.charge_to_full_complete && !self.charge_to_full_verifying
    }

    /// Clears the charge-to-full session flags; a session lasts only as long
    /// as the process, so neither a loaded nor a stored configuration holds one.
    pub fn clear_session_state(&mut self)
        ensures
            *final(self) == old(self).spec_without_session(),
    {
        self.charge_to_full_active = false;
        self.charge_to_full_armed = false;
        self.charge_to_full_complete = false;
        self.charge_to_full_verifying = false;
    }

    /// The configuration as the user interface sees it: the stored settings
    /// with the flags of the running charge-to-full session.
    pub open spec fn spec_with_runtime_state(self, m: ChargeMonitor) -> AppConfig {
        AppConfig {
            charge_to_full_armed: m.armed,
            charge_to_full_active: m.active,
            charge_to_full_verifying: m.verifying,
            charge_to_full_complete: m.complete,
            ..self
        }
    }

    pub fn with_runtime_state(&self, monitor: &ChargeMonitor) -> (c: AppConfig)
        ensures
            c == self.spec_with_runtime_state(*monitor),
    {
        let mut c = *self;
        c.charge_to_full_armed = monitor.armed;
        c.charge_to_full_active = monitor.active;
        c.charge_to_full_verifying = monitor.verifying;
        c.charge_to_full_complete = monitor.complete;
        c
    }

    /// The threshold pair to apply when thresholds are enabled.
    pub open spec fn spec_threshold_pair(self) -> Option<(u8, u8)> {
        if self.thresholds_enabled {
            Some((self.start_threshold, self.stop_threshold))
        } else {
            None
        }
    }

    pub fn threshold_pair(&self) -> (r: Option<(u8, u8)>)
        ensures
            r == self.spec_threshold_pair(),
    {
        if self.thresholds_enabled {
            Some((self.start_threshold, self.stop_threshold))
        } else {
            None
        }
    }
}

/// The desktop widget shows its charge bar while a session runs, is being
/// verified, or has completed.
pub open spec fn spec_show_charge_bar(c: AppConfig) -> bool {
    c.charge_to_full_active || c.charge_to_full_verifying || c.charge_to_full_complete
}

pub fn show_charge_bar(cfg: &AppConfig) -> (r: bool)
    ensures
        r == spec_show_charge_bar(*cfg),
{
    cfg.charge_to_full_active || cfg.charge_to_full_verifying || cfg.charge_to_full_complete
}

/// The configuration to run with, given what could be parsed from the stored
/// file: the parsed settings without session flags, or the defaults where
/// nothing could be parsed.
pub open spec fn spec_loaded_config(parsed: Option<AppConfig>) -> AppConfig {
    match parsed {
        Some(c) => c.spec_without_session(),
        None => spec_default_config(),
    }
}

pub fn loaded_config(parsed: Option<AppConfig>) -> (c: AppConfig)
    ensures
        c == spec_loaded_config(parsed),
{
    match parsed {
        Some(mut c) => {
            c.clear_session_state();
            c
        },
        None => AppConfig::default(),
    }
}

/// The configuration that is written to disk: the given one without session
/// flags.
pub fn config_to_store(cfg: &AppConfig) -> (c: AppConfig)
    ensures
        c == cfg.spec_without_session(),
{
    let mut c = *cfg;
    c.clear_session_state();
    c
}

/// The settings of a first start pass validation.
pub proof fn lemma_default_config_valid()
    ensures
        thresholds_valid(spec_default_config()),
        spec_default_config().has_no_session(),
        spec_default_config().use_status_icons,
{
}

/// Neither a loaded nor a stored configuration holds a charge-to-full session,
/// whatever was on disk or in the running process.
pub proof fn lemma_session_never_persisted(parsed: Option<AppConfig>, cfg: AppConfig, m: ChargeMonitor)
    ensures
        spec_loaded_config(parsed).has_no_session(),
        cfg.spec_with_runtime_state(m).spec_without_session() == cfg.spec_without_session(),
        cfg.spec_without_session().has_no_session(),
        cfg.spec_without_session().spec_without_session() == cfg.spec_without_session(),
{
}

/// Validation looks at the thresholds alone: the session flags that the
/// interface adds never change its outcome.
pub proof fn lemma_validation_ignores_session(cfg: AppConfig, m: ChargeMonitor)
    ensures
        thresholds_valid(cfg.spec_with_runtime_state(m)) == thresholds_valid(cfg),
        thresholds_valid(cfg.spec_without_session()) == thresholds_valid(cfg),
{
}

/// Loading keeps every stored setting and drops only the session flags; a
/// stored configuration loads back as it was stored, and one without a
/// session loads unchanged.
pub proof fn lemma_loading_keeps_settings(c: AppConfig)
    ensures
        ({
            let l = spec_loaded_config(Some(c));
            &&& l.start_threshold == c.start_threshold
            &&& l.stop_threshold == c.stop_threshold
            &&& l.thresholds_enabled == c.thresholds_enabled
            &&& l.show_desktop_widget == c.show_desktop_widget
            &&& l.widget_x == c.widget_x
            &&& l.widget_y == c.widget_y
            &&& l.show_battery_percent == c.show_battery_percent
            &&& l.show_power_source == c.show_power_source
            &&& l.show_charging_status == c.show_charging_status
            &&& l.use_status_icons == c.use_status_icons
            &&& l.match_os_theme == c.match_os_theme
            &&& !l.charge_to_full_active && !l.charge_to_full_armed
            &&& !l.charge_to_full_complete && !l.charge_to_full_verifying
        }),
        !c.charge_to_full_active && !c.charge_to_full_armed && !c.charge_to_full_complete
            && !c.charge_to_full_verifying ==> spec_loaded_config(Some(c)) == c,
        spec_loaded_config(Some(c.spec_without_session())) == c.spec_without_session(),
{
}

/// The interface sees each session flag exactly as the session has it, and
/// every other setting as stored; the charge bar shows exactly while the
/// session runs, tops off or completed, so not while an armed session waits
/// for external power.
pub proof fn lemma_runtime_state_copies_session(cfg: AppConfig, m: ChargeMonitor)
    ensures
        ({
            let r = cfg.spec_with_runtime_state(m);
            &&& r.charge_to_full_armed == m.armed
            &&& r.charge_to_full_active == m.active
            &&& r.charge_to_full_verifying == m.verifying
            &&& r.charge_to_full_complete == m.complete
            &&& r.start_threshold == cfg.start_threshold
            &&& r.stop_threshold == cfg.stop_threshold
            &&& r.thresholds_enabled == cfg.thresholds_enabled
            &&& r.show_desktop_widget == cfg.show_desktop_widget
            &&& r.widget_x == cfg.widget_x
            &&& r.widget_y == cfg.widget_y
            &&& r.show_battery_percent == cfg.show_battery_percent
            &&& r.show_power_source == cfg.show_power_source
            &&& r.show_charging_status == cfg.show_charging_status
            &&& r.use_status_icons == cfg.use_status_icons
            &&& r.match_os_theme == cfg.match_os_theme
            &&& spec_show_charge_bar(r) <==> (m.active || m.verifying || m.complete)
        }),
        m.armed && !m.active && !m.verifying && !m.complete ==> !spec_show_charge_bar(
            cfg.spec_with_runtime_state(m),
        ),
{
}

} // verus!
