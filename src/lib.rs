use vstd::prelude::*;

pub mod assembly;
pub mod targets;
pub mod toolchain;

verus! {

/// The single fatal error a build can end with.
#[derive(Debug, PartialEq, Eq, Structural)]
pub enum BuildpackError {
    /// A file could not be read, written, copied or removed.
    Io,
    /// The toolchain archive could not be downloaded.
    Download,
    /// The provisioned environment holds no executable search path.
    RustToolchainPath,
    /// The target listing could not be run or read.
    CargoMetadata,
    /// The release index could not be fetched, or listed no release.
    ReleaseIndex,
    /// A binary target's name is not a valid process type.
    InvalidProcessType,
}

/// Why an archive could not be unpacked: every such failure is an IO error.
#[derive(Debug, PartialEq, Eq, Structural)]
pub enum ExtractError {
    Io,
}

/// The outcome of detection, with the capability it declares when it passes.
#[derive(Debug, PartialEq, Eq, Structural)]
pub enum DetectOutcome {
    Pass,
    Fail,
}

/// The buildpack: it applies to a source tree exactly when a lock file is present.
pub struct RustBuildpack;

impl RustBuildpack {
    /// Detection passes iff the manifest's lock file exists.
    pub fn detect(&self, lock_file_exists: bool) -> (r: DetectOutcome)
        ensures
            r == (if lock_file_exists { DetectOutcome::Pass } else { DetectOutcome::Fail }),
    {
        if lock_file_exists {
            DetectOutcome::Pass
        } else {
            DetectOutcome::Fail
        }
    }

    /// Whether the build stage runs after a detection outcome: only after a pass.
    pub fn should_build(outcome: &DetectOutcome) -> (r: bool)
        ensures
            r == (*outcome == DetectOutcome::Pass),
    {
        match outcome {
            DetectOutcome::Pass => true,
            DetectOutcome::Fail => false,
        }
    }
}

} // verus!
