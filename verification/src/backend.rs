use vstd::prelude::*;

verus! {

/// What a backend reports of the charge thresholds.
#[derive(Clone, Debug)]
pub struct ThresholdState {
    pub supported: bool,
    pub enabled: bool,
    pub start: Option<u8>,
    pub stop: Option<u8>,
    pub backend: String,
    pub message: String,
}

/// The threshold state of a machine whose thresholds cannot be controlled.
pub open spec fn unsupported_state(s: ThresholdState, backend: Seq<char>, message: Seq<char>) -> bool {
    &&& !s.supported
    &&& !s.enabled
    &&& s.start is None
    &&& s.stop is None
    &&& s.backend@ == backend
    &&& s.message@ == message
}

/// One operation of a battery backend.
///
/// The first three are the user's requests: a backend carries them out in
/// full, which on Windows means the registry, the driver and a settings
/// broadcast. The `Reassert` steps re-apply a policy from the background: they
/// do the same to the battery but stay cheap and quiet, with neither a
/// broadcast nor a registry rewrite.
#[derive(Clone, Copy, Debug, PartialEq, Eq, Structural)]
pub enum PolicyStep {
    /// Release the limits for a charge to full.
    ChargeToFull,
    /// Switch to unrestricted charging for the final top-off to 100%.
    ChargeToFullTopOff,
    /// Apply a start/stop threshold pair.
    SetThresholds { start: u8, stop: u8 },
    /// Quietly re-assert the released limits of a charge to full.
    ReassertChargeToFull,
    /// Quietly re-assert unrestricted charging for the top-off.
    ReassertTopOff,
    /// Quietly re-apply a start/stop threshold pair.
    ReassertThresholds { start: u8, stop: u8 },
    /// Do nothing.
    Nothing,
}

/// The steps that only a request of the user performs.
pub open spec fn is_user_initiated(step: PolicyStep) -> bool {
    ||| step is ChargeToFull
    ||| step is ChargeToFullTopOff
    ||| step is SetThresholds
}

/// The threshold pair that a step applies, if it applies one.
pub open spec fn step_pair(step: PolicyStep) -> Option<(u8, u8)> {
    match step {
        PolicyStep::SetThresholds { start, stop } => Some((start, stop)),
        PolicyStep::ReassertThresholds { start, stop } => Some((start, stop)),
        _ => None,
    }
}

/// A step that releases the limits for a charge to full or its top-off.
pub open spec fn step_releases_limits(step: PolicyStep) -> bool {
    ||| step is ChargeToFull
    ||| step is ChargeToFullTopOff
    ||| step is ReassertChargeToFull
    ||| step is ReassertTopOff
}

pub open spec fn spec_reassert_step(top_off: bool) -> PolicyStep {
    if top_off {
        PolicyStep::ReassertTopOff
    } else {
        PolicyStep::ReassertChargeToFull
    }
}

/// Re-asserting a charge to full quietly uses the top-off step when asked to,
/// the plain charge-to-full step otherwise.
pub fn reassert_step(top_off: bool) -> (s: PolicyStep)
    ensures
        s == spec_reassert_step(top_off),
{
    if top_off {
        PolicyStep::ReassertTopOff
    } else {
        PolicyStep::ReassertChargeToFull
    }
}

pub open spec fn spec_maintain_policy_step(charge_to_full: bool, enabled: bool, start: u8, stop: u8) -> PolicyStep {
    if charge_to_full {
        spec_reassert_step(true)
    } else if enabled {
        PolicyStep::ReassertThresholds { start, stop }
    } else {
        PolicyStep::Nothing
    }
}

/// Re-applies the active policy, to override other tools: a charge to full
/// keeps its top-off limits, enabled thresholds are applied again, and
/// otherwise nothing happens. Each of these is a quiet step.
pub fn maintain_policy_step(charge_to_full: bool, enabled: bool, start: u8, stop: u8) -> (s: PolicyStep)
    ensures
        s == spec_maintain_policy_step(charge_to_full, enabled, start, stop),
{
    if charge_to_full {
        reassert_step(true)
    } else if enabled {
        PolicyStep::ReassertThresholds { start, stop }
    } else {
        PolicyStep::Nothing
    }
}

/// The background steps are never the user's: re-asserting and maintaining a
/// policy stay quiet, while doing to the battery what the user's step of the
/// same kind does.
pub proof fn lemma_background_steps_quiet(top_off: bool, charge_to_full: bool, enabled: bool, start: u8, stop: u8)
    ensures
        !is_user_initiated(spec_reassert_step(top_off)),
        step_releases_limits(spec_reassert_step(top_off)),
        !is_user_initiated(spec_maintain_policy_step(charge_to_full, enabled, start, stop)),
        charge_to_full ==> step_releases_limits(spec_maintain_policy_step(charge_to_full, enabled, start, stop)),
        !charge_to_full && enabled ==> step_pair(spec_maintain_policy_step(charge_to_full, enabled, start, stop))
            == Some((start, stop)),
        !charge_to_full && !enabled ==> spec_maintain_policy_step(charge_to_full, enabled, start, stop)
            is Nothing,
{
}

/// The backend of platforms without threshold control.
#[derive(Clone, Copy, Debug)]
pub struct StubBackend;

pub open spec fn stub_backend_name() -> Seq<char> {
    "stub"@
}

pub open spec fn stub_message() -> Seq<char> {
    "Battery threshold control is not supported on this platform."@
}

pub open spec fn unsupported_platform() -> Seq<char> {
    "Unsupported platform"@
}

impl StubBackend {
    pub fn get_thresholds(&self) -> (s: ThresholdState)
        ensures
            unsupported_state(s, stub_backend_name(), stub_message()),
    {
        ThresholdState {
            supported: false,
            enabled: false,
            start: None,
            stop: None,
            backend: String::from_str("stub"),
            message: String::from_str("Battery threshold control is not supported on this platform."),
        }
    }

    pub fn set_thresholds(&mut self, start: u8, stop: u8) -> (r: Result<(), String>)
        ensures
            r matches Err(e) && e@ == unsupported_platform(),
    {
        Err(String::from_str("Unsupported platform"))
    }

    pub fn charge_to_full(&mut self) -> (r: Result<(), String>)
        ensures
            r matches Err(e) && e@ == unsupported_platform(),
    {
        Err(String::from_str("Unsupported platform"))
    }

    pub fn restore_thresholds(&mut self, start: u8, stop: u8) -> (r: Result<(), String>)
        ensures
            r matches Err(e) && e@ == unsupported_platform(),
    {
        Err(String::from_str("Unsupported platform"))
    }
}

} // verus!
