//! What the processor reports about the virtualization extension.
use vstd::prelude::*;

verus! {

/// The SVM sub-features read from the processor's SVM feature leaf.
#[derive(Clone, Copy, Debug, PartialEq, Eq, Structural)]
pub struct SvmCapabilities {
    /// VM_CR supports the irreversible lock sub-field (SVML).
    pub lock: bool,
    /// The next instruction pointer is saved on #VMEXIT (NRIPS).
    pub rip_save: bool,
    /// Nested paging is available (NP).
    pub nested_paging: bool,
}

/// Snapshot of the processor's support for the virtualization extension.
#[derive(Clone, Copy, Debug, PartialEq, Eq, Structural)]
pub struct ProcessorFeatureSet {
    pub supports_extension: bool,
    pub supports_lock: bool,
    pub supports_nested_paging: bool,
    pub supports_rip_save: bool,
}

/// Why the processor's capabilities could not be determined.
#[derive(Clone, Copy, Debug, PartialEq, Eq, Structural)]
pub enum ProbeError {
    /// The identification leaf that reports the extension, or the one that
    /// reports its sub-features, cannot be read on this processor.
    QueryUnavailable,
}

impl ProcessorFeatureSet {
    /// A feature set never claims a sub-feature of an extension it lacks.
    pub open spec fn wf(self) -> bool {
        !self.supports_extension ==> !self.supports_lock && !self.supports_nested_paging
            && !self.supports_rip_save
    }

    /// The feature set of a processor without the extension.
    pub fn unsupported() -> (r: Self)
        ensures
            r.wf(),
            !r.supports_extension,
    {
        ProcessorFeatureSet {
            supports_extension: false,
            supports_lock: false,
            supports_nested_paging: false,
            supports_rip_save: false,
        }
    }

    /// The feature set of a processor with the extension and the given sub-features.
    pub fn with_extension(caps: SvmCapabilities) -> (r: Self)
        ensures
            r.wf(),
            r == features_with(caps),
    {
        ProcessorFeatureSet {
            supports_extension: true,
            supports_lock: caps.lock,
            supports_nested_paging: caps.nested_paging,
            supports_rip_save: caps.rip_save,
        }
    }
}

/// The feature set of a processor that has the extension with sub-features `caps`.
pub open spec fn features_with(caps: SvmCapabilities) -> ProcessorFeatureSet {
    ProcessorFeatureSet {
        supports_extension: true,
        supports_lock: caps.lock,
        supports_nested_paging: caps.nested_paging,
        supports_rip_save: caps.rip_save,
    }
}

/// What probing yields from the two identification queries: `has_extension`
/// is `None` when the extended feature leaf cannot be read, and `caps` is
/// `None` when the SVM feature leaf cannot; `caps` matters only when the
/// extension is present.
pub open spec fn assembled(
    has_extension: Option<bool>,
    caps: Option<SvmCapabilities>,
) -> Result<ProcessorFeatureSet, ProbeError> {
    match has_extension {
        None => Err(ProbeError::QueryUnavailable),
        Some(false) => Ok(
            ProcessorFeatureSet {
                supports_extension: false,
                supports_lock: false,
                supports_nested_paging: false,
                supports_rip_save: false,
            },
        ),
        Some(true) => match caps {
            None => Err(ProbeError::QueryUnavailable),
            Some(c) => Ok(features_with(c)),
        },
    }
}

/// Builds the feature set from the answers of the two identification queries.
pub fn assemble_features(has_extension: Option<bool>, caps: Option<SvmCapabilities>) -> (r: Result<
    ProcessorFeatureSet,
    ProbeError,
>)
    ensures
        r == assembled(has_extension, caps),
        r matches Ok(f) ==> f.wf(),
{
    match has_extension {
        None => Err(ProbeError::QueryUnavailable),
        Some(false) => Ok(ProcessorFeatureSet::unsupported()),
        Some(true) => match caps {
            None => Err(ProbeError::QueryUnavailable),
            Some(c) => Ok(ProcessorFeatureSet::with_extension(c)),
        },
    }
}

} // verus!
