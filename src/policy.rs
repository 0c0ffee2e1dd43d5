//! The enablement policy: from the feature set and the register value read,
//! the outcome and the one register write, if any, that it calls for.
use vstd::prelude::*;
use crate::features::ProcessorFeatureSet;
use crate::register::{VmControlRegister, VM_CR_SVMDIS};

verus! {

/// What the policy concluded.
#[derive(Clone, Copy, Debug, PartialEq, Eq, Structural)]
pub enum EnablementOutcome {
    /// The extension was already enabled; nothing is written.
    AlreadyEnabled,
    /// The extension was disabled and unlocked; it is enabled by one write.
    Enabled,
    /// The processor lacks the extension.
    Unsupported,
    /// The extension is disabled and the register is locked.
    LockedDisabled,
}

/// The coarse status handed back to the boot environment.
#[derive(Clone, Copy, Debug, PartialEq, Eq, Structural)]
pub enum ExitStatus {
    Success,
    Unsupported,
}

/// The decision, stated over the two sub-fields that matter. The lock bit
/// only counts on processors that advertise lock support.
pub open spec fn decision(features: ProcessorFeatureSet, reg: VmControlRegister) -> EnablementOutcome {
    if !features.supports_extension {
        EnablementOutcome::Unsupported
    } else if !reg.is_disabled() {
        EnablementOutcome::AlreadyEnabled
    } else if features.supports_lock && reg.is_locked() {
        EnablementOutcome::LockedDisabled
    } else {
        EnablementOutcome::Enabled
    }
}

/// `reg` with the disabled sub-field cleared and every other bit kept.
pub open spec fn enabled_value(reg: VmControlRegister) -> VmControlRegister {
    VmControlRegister { bits: reg.bits & !VM_CR_SVMDIS }
}

/// The register write that the decision calls for: one only when enabling.
pub open spec fn write_for(features: ProcessorFeatureSet, reg: VmControlRegister) -> Option<VmControlRegister> {
    if decision(features, reg) == EnablementOutcome::Enabled {
        Some(enabled_value(reg))
    } else {
        None
    }
}

/// The status reported to the boot environment for each outcome.
pub open spec fn status_of(outcome: EnablementOutcome) -> ExitStatus {
    match outcome {
        EnablementOutcome::AlreadyEnabled | EnablementOutcome::Enabled => ExitStatus::Success,
        EnablementOutcome::Unsupported | EnablementOutcome::LockedDisabled => ExitStatus::Unsupported,
    }
}

/// The decision together with the value to write back, if any.
#[derive(Clone, Copy, Debug, PartialEq, Eq, Structural)]
pub struct EnablementPlan {
    pub outcome: EnablementOutcome,
    pub write: Option<VmControlRegister>,
}

/// Decides the outcome for the feature set and the register value just read.
pub fn decide(features: ProcessorFeatureSet, reg: VmControlRegister) -> (r: EnablementOutcome)
    ensures
        r == decision(features, reg),
{
    if !features.supports_extension {
        EnablementOutcome::Unsupported
    } else if !reg.disabled() {
        EnablementOutcome::AlreadyEnabled
    } else if features.supports_lock && reg.locked() {
        EnablementOutcome::LockedDisabled
    } else {
        EnablementOutcome::Enabled
    }
}

/// Decides, and on the enabling path clears the disabled sub-field of the
/// value read to give the one value to write back.
///
/// A register that is locked on a processor with lock support is never
/// given a write.
pub fn plan(features: ProcessorFeatureSet, reg: VmControlRegister) -> (r: EnablementPlan)
    ensures
        r.outcome == decision(features, reg),
        r.write == write_for(features, reg),
        r.write is Some <==> r.outcome == EnablementOutcome::Enabled,
        r.write is Some ==> !(features.supports_lock && reg.is_locked()),
        r.write matches Some(w) ==> !w.is_disabled() && w.is_locked() == reg.is_locked()
            && w.other_bits() == reg.other_bits(),
{
    let outcome = decide(features, reg);
    match outcome {
        EnablementOutcome::Enabled => {
            let mut w = reg;
            w.set_disabled(false);
            proof {
                let b = reg.bits;
                let wb = w.bits;
                assert(wb & !0x10u64 == b & !0x10u64 && wb & 0x10u64 == 0 ==> wb == b & !0x10u64)
                    by (bit_vector);
            }
            EnablementPlan { outcome, write: Some(w) }
        },
        _ => EnablementPlan { outcome, write: None },
    }
}

/// Maps an outcome to the status handed back to the boot environment: both
/// failures share one status and are told apart only by the log.
pub fn exit_status(outcome: EnablementOutcome) -> (r: ExitStatus)
    ensures
        r == status_of(outcome),
{
    match outcome {
        EnablementOutcome::AlreadyEnabled | EnablementOutcome::Enabled => ExitStatus::Success,
        EnablementOutcome::Unsupported | EnablementOutcome::LockedDisabled => ExitStatus::Unsupported,
    }
}

/// The diagnostic line logged for each outcome.
pub open spec fn message_of(outcome: EnablementOutcome) -> Seq<char> {
    match outcome {
        EnablementOutcome::AlreadyEnabled => "AMD-V is enabled."@,
        EnablementOutcome::Enabled => "AMD-V was disabled but unlocked, and has been enabled."@,
        EnablementOutcome::Unsupported => "AMD-V unsupported."@,
        EnablementOutcome::LockedDisabled => "AMD-V is disabled and locked."@,
    }
}

/// The diagnostic line to log for an outcome.
pub fn status_message(outcome: EnablementOutcome) -> (r: &'static str)
    ensures
        r@ == message_of(outcome),
{
    match outcome {
        EnablementOutcome::AlreadyEnabled => "AMD-V is enabled.",
        EnablementOutcome::Enabled => "AMD-V was disabled but unlocked, and has been enabled.",
        EnablementOutcome::Unsupported => "AMD-V unsupported.",
        EnablementOutcome::LockedDisabled => "AMD-V is disabled and locked.",
    }
}

} // verus!
