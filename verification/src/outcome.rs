use crate::config::Action;
use crate::errors::CargoMSRVError;
use crate::releases::Release;
use crate::reporter::Output;
use crate::search_methods::SearchConclusion;
use crate::semver::Version;
use crate::target::Target;
use crate::toolchain::OwnedToolchainSpec;
use vstd::prelude::*;

verus! {

/// The verdict of one search: the minimal passing toolchain was found, or
/// every candidate failed (an empty candidate set included). A normal,
/// representable outcome — not an error value.
#[derive(Debug)]
pub enum MinimalCompatibility {
    CapableToolchain { toolchain: OwnedToolchainSpec },
    NoCompatibleToolchains,
}

impl MinimalCompatibility {
    /// The found minimal version, where there is one.
    pub open spec fn spec_version(self) -> Option<Version> {
        match self {
            MinimalCompatibility::CapableToolchain { toolchain } => Some(toolchain.version),
            MinimalCompatibility::NoCompatibleToolchains => None,
        }
    }

    /// The target the found toolchain is addressed at, where there is one.
    pub open spec fn spec_target(self) -> Option<Target> {
        match self {
            MinimalCompatibility::CapableToolchain { toolchain } => Some(toolchain.target),
            MinimalCompatibility::NoCompatibleToolchains => None,
        }
    }

    /// The found minimal version; only a capable verdict carries one.
    pub fn to_version(&self) -> (v: Version)
        requires
            self is CapableToolchain,
        ensures
            self.spec_version() == Some(v),
    {
        match self {
            MinimalCompatibility::CapableToolchain { toolchain } => toolchain.version,
            MinimalCompatibility::NoCompatibleToolchains => unreached(),
        }
    }
}

/// Turns a finished search's conclusion over the candidate list into the
/// final answer — the minimal capable candidate's version, addressed at the
/// run's target, or no compatible toolchain at all.
pub fn to_compatibility(conclusion: SearchConclusion, releases: &Vec<Release>, target: &Target) -> (m:
    MinimalCompatibility)
    requires
        conclusion matches SearchConclusion::Capable(h) ==> (h as int) < releases@.len(),
    ensures
        match conclusion {
            SearchConclusion::Capable(h) => {
                &&& m.spec_version() == Some(releases@[h as int].version)
                &&& m.spec_target() == Some(*target)
                &&& m matches MinimalCompatibility::CapableToolchain { toolchain } ==> toolchain.wf()
            },
            SearchConclusion::Exhausted => m is NoCompatibleToolchains,
        },
{
    match conclusion {
        SearchConclusion::Capable(h) => MinimalCompatibility::CapableToolchain {
            toolchain: OwnedToolchainSpec::new(&releases[h].version, target.clone()),
        },
        SearchConclusion::Exhausted => MinimalCompatibility::NoCompatibleToolchains,
    }
}

/// Emits the terminal report of a search, exactly once: the found version on
/// success, the check command that was used otherwise.
pub fn report_outcome<R: Output>(
    minimum_capable: &MinimalCompatibility,
    check_command: &str,
    output: &R,
)
{
    match minimum_capable {
        MinimalCompatibility::CapableToolchain { toolchain } => {
            output.finish_success(Action::Find, Some(toolchain.version()));
        },
        MinimalCompatibility::NoCompatibleToolchains => {
            output.finish_failure(Action::Find, Some(check_command));
        },
    }
}

/// Emits the terminal report and classifies the verdict for the caller: a
/// capable toolchain is success, exhaustion is the typed error naming the
/// check command that found no good version.
pub fn finish<R: Output>(
    minimum_capable: &MinimalCompatibility,
    check_command: &str,
    output: &R,
) -> (r: Result<(), CargoMSRVError>)
    ensures
        r is Ok <==> minimum_capable is CapableToolchain,
        r matches Err(e) ==> e matches CargoMSRVError::UnableToFindAnyGoodVersion { command }
            && command@ == check_command@,
{
    report_outcome(minimum_capable, check_command, output);
    match minimum_capable {
        MinimalCompatibility::CapableToolchain { toolchain: _ } => Ok(()),
        MinimalCompatibility::NoCompatibleToolchains => Err(
            CargoMSRVError::UnableToFindAnyGoodVersion { command: check_command.to_owned() },
        ),
    }
}

/// The decision of the show action: the manifest's declared minimum version
/// is reported where there is one, and its absence is reported as a failure.
pub fn report_show_msrv<R: Output>(msrv: Option<&crate::semver::BareVersion>, output: &R) -> (found:
    bool)
    ensures
        found == (msrv is Some),
{
    output.mode(Action::Show);
    match msrv {
        Some(bare) => {
            let v = bare.to_semver_version();
            output.finish_success(Action::Show, Some(&v));
            true
        },
        None => {
            output.finish_failure(Action::Show, None);
            false
        },
    }
}

/// Folds per-package verdicts into one for the whole workspace. The
/// workspace's effective minimum is the greatest of the member minimums, since the whole
/// workspace must build under one toolchain — and one incompatible member
/// makes the workspace incompatible, as does an empty member list.
pub fn fold_verdicts(verdicts: &Vec<MinimalCompatibility>) -> (r: MinimalCompatibility)
    ensures
        (r is NoCompatibleToolchains) <==> (verdicts@.len() == 0 || exists|i: int|
            0 <= i < verdicts@.len() && #[trigger] verdicts@[i].spec_version() is None),
        r matches MinimalCompatibility::CapableToolchain { toolchain } ==> {
            &&& toolchain.wf()
            &&& exists|i: int|
                0 <= i < verdicts@.len() && #[trigger] verdicts@[i].spec_version() == Some(
                    toolchain.version,
                ) && verdicts@[i].spec_target() == Some(toolchain.target)
            &&& forall|i: int|
                0 <= i < verdicts@.len() ==> (#[trigger] verdicts@[i].spec_version() matches Some(v)
                    ==> v.spec_le(toolchain.version))
        },
{
    let n = verdicts.len();
    let mut best_idx: usize = 0;
    let mut best_version: Version = Version::new(0, 0, 0);
    let mut have_best = false;
    let mut i: usize = 0;
    while i < n
        invariant
            i <= n,
            n == verdicts@.len(),
            forall|j: int| 0 <= j < i ==> #[trigger] verdicts@[j].spec_version() is Some,
            have_best <==> i > 0,
            have_best ==> (best_idx as int) < i,
            have_best ==> verdicts@[best_idx as int].spec_version() == Some(best_version),
            have_best ==> forall|j: int|
                0 <= j < i ==> (#[trigger] verdicts@[j].spec_version() matches Some(v) ==> v.spec_le(
                    best_version,
                )),
        decreases n - i,
    {
        match &verdicts[i] {
            MinimalCompatibility::NoCompatibleToolchains => {
                proof {
                    assert(verdicts@[i as int].spec_version() is None);
                }
                return MinimalCompatibility::NoCompatibleToolchains;
            },
            MinimalCompatibility::CapableToolchain { toolchain } => {
                if !have_best || best_version.lt(&toolchain.version) {
                    best_idx = i;
                    best_version = toolchain.version;
                    have_best = true;
                }
            },
        }
        i = i + 1;
    }
    if !have_best {
        return MinimalCompatibility::NoCompatibleToolchains;
    }
    match &verdicts[best_idx] {
        MinimalCompatibility::CapableToolchain { toolchain } => MinimalCompatibility::CapableToolchain {
            toolchain: OwnedToolchainSpec::new(&best_version, toolchain.target.clone()),
        },
        MinimalCompatibility::NoCompatibleToolchains => unreached(),
    }
}

} // verus!
