//! Probing the running processor through raw-cpuid.
use vstd::prelude::*;
use crate::features::{assemble_features, assembled, ProbeError, ProcessorFeatureSet, SvmCapabilities};

verus! {

#[verifier::external_type_specification]
#[verifier::external_body]
pub struct ExCpuId(raw_cpuid::CpuId);

#[verifier::external_type_specification]
#[verifier::external_body]
pub struct ExExtendedProcessorFeatureIdentifiers(raw_cpuid::ExtendedProcessorFeatureIdentifiers);

#[verifier::external_type_specification]
#[verifier::external_body]
pub struct ExSvmFeatures(raw_cpuid::SvmFeatures);

/// Relies on raw_cpuid::CpuId::new: a reader of the running processor's CPUID leaves.
pub assume_specification[ raw_cpuid::CpuId::new ]() -> raw_cpuid::CpuId;

/// Relies on CpuId::get_extended_processor_and_feature_identifiers: leaf
/// 0x8000_0001, or `None` where the processor does not report it.
pub assume_specification[ raw_cpuid::CpuId::get_extended_processor_and_feature_identifiers ](
    cpuid: &raw_cpuid::CpuId,
) -> Option<raw_cpuid::ExtendedProcessorFeatureIdentifiers>;

/// Relies on ExtendedProcessorFeatureIdentifiers::has_svm: the SVM bit of an AMD processor.
pub assume_specification[ raw_cpuid::ExtendedProcessorFeatureIdentifiers::has_svm ](
    ids: &raw_cpuid::ExtendedProcessorFeatureIdentifiers,
) -> bool;

/// Relies on CpuId::get_svm_info: leaf 0x8000_000A, or `None` where SVM is
/// absent or the leaf is not reported.
pub assume_specification[ raw_cpuid::CpuId::get_svm_info ](
    cpuid: &raw_cpuid::CpuId,
) -> Option<raw_cpuid::SvmFeatures>;

/// Relies on SvmFeatures::has_svm_lock: the SVML bit.
pub assume_specification[ raw_cpuid::SvmFeatures::has_svm_lock ](svm: &raw_cpuid::SvmFeatures) -> bool;

/// Relies on SvmFeatures::has_nrip: the NRIPS bit.
pub assume_specification[ raw_cpuid::SvmFeatures::has_nrip ](svm: &raw_cpuid::SvmFeatures) -> bool;

/// Relies on SvmFeatures::has_nested_paging: the NP bit.
pub assume_specification[ raw_cpuid::SvmFeatures::has_nested_paging ](svm: &raw_cpuid::SvmFeatures) -> bool;

/// Reads the sub-feature bits out of the SVM feature leaf.
fn capabilities_of(svm: &raw_cpuid::SvmFeatures) -> (r: SvmCapabilities) {
    SvmCapabilities {
        lock: svm.has_svm_lock(),
        rip_save: svm.has_nrip(),
        nested_paging: svm.has_nested_paging(),
    }
}

/// Queries the running processor for the extension and its sub-features.
///
/// The SVM feature leaf is only consulted when the extension is reported.
/// What comes back depends on the processor; whatever it is, it is what
/// `assemble_features` makes of some pair of answers, so a feature set
/// without the extension claims no sub-feature.
pub fn probe() -> (r: Result<ProcessorFeatureSet, ProbeError>)
    ensures
        exists|h: Option<bool>, c: Option<SvmCapabilities>| r == assembled(h, c),
        r matches Ok(f) ==> f.wf(),
{
    let cpuid = raw_cpuid::CpuId::new();
    let has_extension: Option<bool> = match cpuid.get_extended_processor_and_feature_identifiers() {
        Some(ids) => Some(ids.has_svm()),
        None => None,
    };
    let caps: Option<SvmCapabilities> = match has_extension {
        Some(true) => match cpuid.get_svm_info() {
            Some(svm) => Some(capabilities_of(&svm)),
            None => None,
        },
        _ => None,
    };
    assemble_features(has_extension, caps)
}

} // verus!
