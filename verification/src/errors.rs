use vstd::prelude::*;

verus! {

/// The fatal errors of the search core. Probe failures are not among them:
/// a failing probe is data fed back into the search, not an error.
#[derive(Debug, Clone, PartialEq, Eq)]
pub enum CargoMSRVError {
    /// Every candidate failed the check: no compatible toolchain exists. The
    /// check command is carried for the final report.
    UnableToFindAnyGoodVersion { command: String },
    /// The platform-default host triple could not be read from the toolchain
    /// manager's output. Fatal: without a target no toolchain can be
    /// addressed.
    DefaultHostTripleNotFound,
    /// Platform-target resolution could not run at all — the embedding binary
    /// raises this when the toolchain manager cannot be invoked. Equally
    /// fatal, kept distinct for diagnosis.
    DefaultPlatformTargetNotFound,
}

} // verus!
