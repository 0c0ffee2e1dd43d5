use svm_enable::features::{ProcessorFeatureSet, SvmCapabilities};
use svm_enable::policy::{decide, exit_status, plan, status_message, EnablementOutcome, ExitStatus};
use svm_enable::register::VmControlRegister;
use svm_enable::simulation::SimulatedRegister;

fn with_svm(lock: bool) -> ProcessorFeatureSet {
    ProcessorFeatureSet::with_extension(SvmCapabilities { lock, rip_save: true, nested_paging: true })
}

fn no_svm() -> ProcessorFeatureSet {
    ProcessorFeatureSet {
        supports_extension: false,
        supports_lock: true,
        supports_nested_paging: true,
        supports_rip_save: true,
    }
}

#[test]
fn decide_is_deterministic() {
    for bits in [0u64, 0x8, 0x10, 0x18] {
        for f in [no_svm(), with_svm(false), with_svm(true)] {
            let r = VmControlRegister::from_bits(bits);
            assert_eq!(decide(f, r), decide(f, r));
        }
    }
}

#[test]
fn no_extension_is_unsupported_without_write() {
    for bits in [0u64, 0x8, 0x10, 0x18, u64::MAX] {
        let mut sim = SimulatedRegister::new(VmControlRegister::from_bits(bits));
        assert_eq!(sim.run(no_svm()), EnablementOutcome::Unsupported);
        assert_eq!(sim.write_count(), 0);
        assert_eq!(sim.read().bits(), bits);
    }
}

#[test]
fn already_enabled_is_a_no_op() {
    for bits in [0u64, 0x8] {
        let mut sim = SimulatedRegister::new(VmControlRegister::from_bits(bits));
        assert_eq!(sim.run(with_svm(true)), EnablementOutcome::AlreadyEnabled);
        assert_eq!(sim.write_count(), 0);
        assert_eq!(sim.read().bits(), bits);
    }
}

#[test]
fn lock_blocks_write() {
    let mut sim = SimulatedRegister::new(VmControlRegister::new(true, true));
    assert_eq!(sim.run(with_svm(true)), EnablementOutcome::LockedDisabled);
    assert_eq!(sim.write_count(), 0);
    assert_eq!(sim.read().bits(), 0x18);
}

#[test]
fn enable_path_clears_disabled() {
    for f in [with_svm(true), with_svm(false)] {
        let mut sim = SimulatedRegister::new(VmControlRegister::new(true, false));
        assert_eq!(sim.run(f), EnablementOutcome::Enabled);
        assert_eq!(sim.write_count(), 1);
        assert!(!sim.read().disabled());
        assert_eq!(sim.writes[0].bits(), 0);
    }
}

#[test]
fn two_runs_write_once() {
    let mut sim = SimulatedRegister::new(VmControlRegister::from_bits(0x11));
    assert_eq!(sim.run(with_svm(true)), EnablementOutcome::Enabled);
    assert_eq!(sim.run(with_svm(true)), EnablementOutcome::AlreadyEnabled);
    assert_eq!(sim.write_count(), 1);
    assert_eq!(sim.read().bits(), 0x1);
}

#[test]
fn stray_lock_bit_ignored_without_lock_support() {
    let mut sim = SimulatedRegister::new(VmControlRegister::new(true, true));
    assert_eq!(sim.run(with_svm(false)), EnablementOutcome::Enabled);
    assert_eq!(sim.write_count(), 1);
    assert!(!sim.read().disabled());
    assert!(sim.read().locked());
    assert_eq!(sim.read().bits(), 0x8);
}

#[test]
fn plan_writes_only_when_enabling() {
    let p = plan(with_svm(true), VmControlRegister::from_bits(0x13));
    assert_eq!(p.outcome, EnablementOutcome::Enabled);
    assert_eq!(p.write, Some(VmControlRegister::from_bits(0x3)));
    let p = plan(with_svm(true), VmControlRegister::from_bits(0x18));
    assert_eq!(p.outcome, EnablementOutcome::LockedDisabled);
    assert_eq!(p.write, None);
    let p = plan(no_svm(), VmControlRegister::from_bits(0x10));
    assert_eq!(p.outcome, EnablementOutcome::Unsupported);
    assert_eq!(p.write, None);
}

#[test]
fn outcomes_map_to_exit_status() {
    assert_eq!(exit_status(EnablementOutcome::AlreadyEnabled), ExitStatus::Success);
    assert_eq!(exit_status(EnablementOutcome::Enabled), ExitStatus::Success);
    assert_eq!(exit_status(EnablementOutcome::Unsupported), ExitStatus::Unsupported);
    assert_eq!(exit_status(EnablementOutcome::LockedDisabled), ExitStatus::Unsupported);
}

#[test]
fn each_outcome_has_its_own_message() {
    assert_eq!(status_message(EnablementOutcome::AlreadyEnabled), "AMD-V is enabled.");
    assert_eq!(status_message(EnablementOutcome::Unsupported), "AMD-V unsupported.");
    assert_eq!(status_message(EnablementOutcome::LockedDisabled), "AMD-V is disabled and locked.");
    assert_eq!(
        status_message(EnablementOutcome::Enabled),
        "AMD-V was disabled but unlocked, and has been enabled."
    );
}
