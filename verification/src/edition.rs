use crate::semver::Version;
use vstd::prelude::*;

verus! {

/// A language edition a package manifest can declare. Each edition is first
/// supported by a known release, so a declared edition gives a sound lower
/// bound on the versions worth probing.
#[derive(Debug, Clone, Copy, PartialEq, Eq, Structural)]
pub enum Edition {
    Edition2015,
    Edition2018,
    Edition2021,
}

impl Edition {
    /// The first release that supports the edition.
    pub open spec fn spec_first_version(self) -> Version {
        match self {
            Edition::Edition2015 => Version { major: 1, minor: 0, patch: 0 },
            Edition::Edition2018 => Version { major: 1, minor: 31, patch: 0 },
            Edition::Edition2021 => Version { major: 1, minor: 56, patch: 0 },
        }
    }

    pub fn first_version(&self) -> (v: Version)
        ensures
            v == self.spec_first_version(),
    {
        match self {
            Edition::Edition2015 => Version { major: 1, minor: 0, patch: 0 },
            Edition::Edition2018 => Version { major: 1, minor: 31, patch: 0 },
            Edition::Edition2021 => Version { major: 1, minor: 56, patch: 0 },
        }
    }
}

} // verus!
