use svm_enable::register::{VmControlRegister, VM_CR_LOCK, VM_CR_MSR, VM_CR_SVMDIS};

#[test]
fn new_sets_only_the_two_sub_fields() {
    assert_eq!(VmControlRegister::new(false, false).bits(), 0);
    assert_eq!(VmControlRegister::new(true, false).bits(), 0x10);
    assert_eq!(VmControlRegister::new(false, true).bits(), 0x8);
    assert_eq!(VmControlRegister::new(true, true).bits(), 0x18);
}

#[test]
fn sub_fields_read_from_raw_bits() {
    let r = VmControlRegister::from_bits(0x18);
    assert!(r.disabled());
    assert!(r.locked());
    let r = VmControlRegister::from_bits(!(VM_CR_SVMDIS | VM_CR_LOCK));
    assert!(!r.disabled());
    assert!(!r.locked());
    assert_eq!(VM_CR_MSR, 0xC001_0114);
}

#[test]
fn set_disabled_keeps_other_bits() {
    let mut r = VmControlRegister::from_bits(0xFFFF_FFFF_FFFF_FFFF);
    r.set_disabled(false);
    assert_eq!(r.bits(), 0xFFFF_FFFF_FFFF_FFEF);
    assert!(r.locked());
    r.set_disabled(true);
    assert_eq!(r.bits(), 0xFFFF_FFFF_FFFF_FFFF);
    let mut r = VmControlRegister::from_bits(0x3);
    r.set_disabled(true);
    assert_eq!(r.bits(), 0x13);
}
