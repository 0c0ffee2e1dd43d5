//! A structured view of the VM_CR model-specific register (MSR 0xC001_0114).
use vstd::prelude::*;

verus! {

/// Address of the VM_CR model-specific register.
pub const VM_CR_MSR: u32 = 0xC001_0114;

/// Bit 3 of VM_CR: when set, SVMDIS can no longer be changed until reset.
pub const VM_CR_LOCK: u64 = 0x8;

/// Bit 4 of VM_CR: when set, `EFER.SVME` cannot be set, i.e. SVM is disabled.
pub const VM_CR_SVMDIS: u64 = 0x10;

/// The value of VM_CR, as read from or about to be written to the hardware.
///
/// All bits are kept, so that a value written back differs from the one
/// read only in the bits that were deliberately changed.
#[derive(Clone, Copy, Debug, PartialEq, Eq, Structural)]
pub struct VmControlRegister {
    pub bits: u64,
}

impl VmControlRegister {
    /// Whether the extension is administratively turned off.
    pub open spec fn is_disabled(self) -> bool {
        self.bits & VM_CR_SVMDIS != 0
    }

    /// Whether the register is locked until the next power cycle.
    pub open spec fn is_locked(self) -> bool {
        self.bits & VM_CR_LOCK != 0
    }

    /// The bits other than SVMDIS, which clearing or setting it leaves alone.
    pub open spec fn other_bits(self) -> u64 {
        self.bits & !VM_CR_SVMDIS
    }

    /// Wraps a raw MSR value.
    pub fn from_bits(bits: u64) -> (r: Self)
        ensures
            r.bits == bits,
    {
        VmControlRegister { bits }
    }

    /// A register value with only the two sub-fields set as given.
    pub fn new(disabled: bool, locked: bool) -> (r: Self)
        ensures
            r.is_disabled() == disabled,
            r.is_locked() == locked,
            r.other_bits() & !VM_CR_LOCK == 0,
    {
        let d: u64 = if disabled { VM_CR_SVMDIS } else { 0 };
        let l: u64 = if locked { VM_CR_LOCK } else { 0 };
        let bits: u64 = d | l;
        assert(((d | l) & VM_CR_SVMDIS != 0) == (d == VM_CR_SVMDIS) && ((d | l) & VM_CR_LOCK != 0) == (l == VM_CR_LOCK)
            && (d | l) & !VM_CR_SVMDIS & !VM_CR_LOCK == 0) by (bit_vector)
            requires
                d == 0 || d == 0x10u64,
                l == 0 || l == 0x8u64,
        ;
        VmControlRegister { bits }
    }

    /// The raw MSR value.
    pub fn bits(&self) -> (r: u64)
        ensures
            r == self.bits,
    {
        self.bits
    }

    /// Whether the extension is administratively turned off.
    pub fn disabled(&self) -> (r: bool)
        ensures
            r == self.is_disabled(),
    {
        self.bits & VM_CR_SVMDIS != 0
    }

    /// Whether the register is locked until the next power cycle.
    pub fn locked(&self) -> (r: bool)
        ensures
            r == self.is_locked(),
    {
        self.bits & VM_CR_LOCK != 0
    }

    /// Sets or clears the disabled sub-field, leaving every other bit alone.
    pub fn set_disabled(&mut self, disabled: bool)
        ensures
            final(self).is_disabled() == disabled,
            final(self).is_locked() == old(self).is_locked(),
            final(self).other_bits() == old(self).other_bits(),
    {
        let b = self.bits;
        let nb: u64 = if disabled { b | VM_CR_SVMDIS } else { b & !VM_CR_SVMDIS };
        assert(((b | 0x10u64) & 0x10u64 != 0) && ((b & !0x10u64) & 0x10u64 == 0)
            && ((b | 0x10u64) & 0x8u64 == b & 0x8u64) && ((b & !0x10u64) & 0x8u64 == b & 0x8u64)
            && ((b | 0x10u64) & !0x10u64 == b & !0x10u64) && ((b & !0x10u64) & !0x10u64 == b & !0x10u64))
            by (bit_vector);
        self.bits = nb;
    }
}

} // verus!
