//! Detects AMD's secure virtual machine extension (SVM, marketed as AMD-V)
//! and decides whether, and how, the VM_CR model-specific register must be
//! rewritten so that the extension is enabled before an OS loader runs.
//!
//! The privileged instructions themselves (reading and writing the MSR) are
//! left to the caller: this library turns what they return into decisions
//! and hands back the exact value to write, if any.
use vstd::prelude::*;

pub mod cpuid;
pub mod features;
pub mod laws;
pub mod policy;
pub mod register;
pub mod simulation;

verus! {

} // verus!
