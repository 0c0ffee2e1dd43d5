//! An in-memory stand-in for VM_CR with the same read and write contract,
//! which records every write so that a run of the full sequence can be inspected.
use vstd::prelude::*;
use crate::features::ProcessorFeatureSet;
use crate::policy::{decision, plan, write_for, EnablementOutcome};
use crate::register::VmControlRegister;

verus! {

/// The register value left after one run of the sequence on `reg`.
pub open spec fn value_after_run(features: ProcessorFeatureSet, reg: VmControlRegister) -> VmControlRegister {
    match write_for(features, reg) {
        Some(w) => w,
        None => reg,
    }
}

/// The writes that one run of the sequence on `reg` performs, in order.
pub open spec fn writes_of_run(features: ProcessorFeatureSet, reg: VmControlRegister) -> Seq<VmControlRegister> {
    match write_for(features, reg) {
        Some(w) => seq![w],
        None => seq![],
    }
}

/// A simulated VM_CR: its current value and every value written to it.
pub struct SimulatedRegister {
    pub value: VmControlRegister,
    pub writes: Vec<VmControlRegister>,
}

impl SimulatedRegister {
    /// A register holding `value` that has not been written yet.
    pub fn new(value: VmControlRegister) -> (r: Self)
        ensures
            r.value == value,
            r.writes@.len() == 0,
    {
        SimulatedRegister { value, writes: Vec::new() }
    }

    /// Reads the current value.
    pub fn read(&self) -> (r: VmControlRegister)
        ensures
            r == self.value,
    {
        self.value
    }

    /// Writes `value` and records the write.
    pub fn write(&mut self, value: VmControlRegister)
        ensures
            final(self).value == value,
            final(self).writes@ == old(self).writes@.push(value),
    {
        self.value = value;
        self.writes.push(value);
    }

    /// How many writes the register has received.
    pub fn write_count(&self) -> (r: usize)
        ensures
            r == self.writes@.len(),
    {
        self.writes.len()
    }

    /// Runs the full sequence once: read, decide, and write at most once.
    pub fn run(&mut self, features: ProcessorFeatureSet) -> (r: EnablementOutcome)
        ensures
            r == decision(features, old(self).value),
            final(self).value == value_after_run(features, old(self).value),
            final(self).writes@ == old(self).writes@ + writes_of_run(features, old(self).value),
    {
        let reg = self.read();
        let p = plan(features, reg);
        match p.write {
            Some(w) => {
                self.write(w);
                assert(self.writes@ == old(self).writes@ + seq![w]);
            },
            None => {
                assert(self.writes@ == old(self).writes@ + Seq::<VmControlRegister>::empty());
            },
        }
        p.outcome
    }
}

} // verus!
