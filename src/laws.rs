//! Properties of the whole read-decide-write sequence, stated over the
//! spec functions that `decide`, `plan` and `SimulatedRegister::run` ensure.
use vstd::prelude::*;
use crate::features::ProcessorFeatureSet;
use crate::policy::{decision, enabled_value, EnablementOutcome};
use crate::register::VmControlRegister;
use crate::simulation::{value_after_run, writes_of_run};

verus! {

/// Clearing the disabled sub-field leaves the register enabled, with its
/// lock bit and every other bit as they were.
proof fn lemma_enabled_value(reg: VmControlRegister)
    ensures
        !enabled_value(reg).is_disabled(),
        enabled_value(reg).is_locked() == reg.is_locked(),
        enabled_value(reg).other_bits() == reg.other_bits(),
{
    let b = reg.bits;
    assert((b & !0x10u64) & 0x10u64 == 0 && ((b & !0x10u64) & 0x8u64 != 0) == (b & 0x8u64 != 0)
        && (b & !0x10u64) & !0x10u64 == b & !0x10u64) by (bit_vector);
}

/// The decision depends on the feature set and the register value alone:
/// equal inputs give equal outcomes.
pub proof fn lemma_decision_deterministic(
    f1: ProcessorFeatureSet,
    r1: VmControlRegister,
    f2: ProcessorFeatureSet,
    r2: VmControlRegister,
)
    requires
        f1 == f2,
        r1 == r2,
    ensures
        decision(f1, r1) == decision(f2, r2),
        writes_of_run(f1, r1) == writes_of_run(f2, r2),
        value_after_run(f1, r1) == value_after_run(f2, r2),
{
}

/// Without the extension the outcome is `Unsupported`, whatever the register
/// holds, and nothing is written.
pub proof fn lemma_no_extension_unsupported(features: ProcessorFeatureSet, reg: VmControlRegister)
    requires
        !features.supports_extension,
    ensures
        decision(features, reg) == EnablementOutcome::Unsupported,
        writes_of_run(features, reg).len() == 0,
        value_after_run(features, reg) == reg,
{
}

/// An extension that is already enabled is left alone: no write, register unchanged.
pub proof fn lemma_already_enabled_no_op(features: ProcessorFeatureSet, reg: VmControlRegister)
    requires
        features.supports_extension,
        !reg.is_disabled(),
    ensures
        decision(features, reg) == EnablementOutcome::AlreadyEnabled,
        writes_of_run(features, reg).len() == 0,
        value_after_run(features, reg) == reg,
{
}

/// A disabled register that is locked, on a processor with lock support, is
/// never written: the outcome is `LockedDisabled` and the register is unchanged.
pub proof fn lemma_lock_blocks_write(features: ProcessorFeatureSet, reg: VmControlRegister)
    requires
        features.supports_extension,
        features.supports_lock,
        reg.is_disabled(),
        reg.is_locked(),
    ensures
        decision(features, reg) == EnablementOutcome::LockedDisabled,
        writes_of_run(features, reg).len() == 0,
        value_after_run(features, reg) == reg,
{
}

/// A disabled register that is not locked, or whose lock the processor does
/// not support, is enabled by exactly one write, after which it reads as
/// not disabled.
pub proof fn lemma_enable_clears_disabled(features: ProcessorFeatureSet, reg: VmControlRegister)
    requires
        features.supports_extension,
        reg.is_disabled(),
        !reg.is_locked() || !features.supports_lock,
    ensures
        decision(features, reg) == EnablementOutcome::Enabled,
        writes_of_run(features, reg).len() == 1,
        writes_of_run(features, reg)[0] == value_after_run(features, reg),
        !value_after_run(features, reg).is_disabled(),
        value_after_run(features, reg).is_locked() == reg.is_locked(),
        value_after_run(features, reg).other_bits() == reg.other_bits(),
{
    lemma_enabled_value(reg);
}

/// A stray lock bit is ignored on a processor without lock support: a
/// disabled register is enabled by one write.
pub proof fn lemma_unsupported_lock_ignored(features: ProcessorFeatureSet, reg: VmControlRegister)
    requires
        features.supports_extension,
        !features.supports_lock,
        reg.is_disabled(),
        reg.is_locked(),
    ensures
        decision(features, reg) == EnablementOutcome::Enabled,
        writes_of_run(features, reg).len() == 1,
        !value_after_run(features, reg).is_disabled(),
{
    lemma_enabled_value(reg);
}

/// Running the sequence a second time on what the first run left never
/// writes; and where the first run enabled the extension, the second finds
/// it already enabled, so both runs together write once.
pub proof fn lemma_second_run_idempotent(features: ProcessorFeatureSet, reg: VmControlRegister)
    ensures
        writes_of_run(features, value_after_run(features, reg)).len() == 0,
        value_after_run(features, value_after_run(features, reg)) == value_after_run(features, reg),
        decision(features, reg) == EnablementOutcome::Enabled ==> decision(
            features,
            value_after_run(features, reg),
        ) == EnablementOutcome::AlreadyEnabled && writes_of_run(features, reg).len() + writes_of_run(
            features,
            value_after_run(features, reg),
        ).len() == 1,
{
    lemma_enabled_value(reg);
}

} // verus!
