use vstd::prelude::*;

verus! {

/// A released toolchain version, ordered lexicographically by
/// `(major, minor, patch)`.
#[derive(Debug, Clone, Copy, PartialEq, Eq, Structural)]
pub struct Version {
    pub major: u64,
    pub minor: u64,
    pub patch: u64,
}

impl Version {
    /// Strict lexicographic order on `(major, minor, patch)`.
    pub open spec fn spec_lt(self, other: Version) -> bool {
        ||| self.major < other.major
        ||| (self.major == other.major && self.minor < other.minor)
        ||| (self.major == other.major && self.minor == other.minor && self.patch < other.patch)
    }

    pub open spec fn spec_le(self, other: Version) -> bool {
        self.spec_lt(other) || self == other
    }

    pub fn new(major: u64, minor: u64, patch: u64) -> (v: Version)
        ensures
            v == (Version { major, minor, patch }),
    {
        Version { major, minor, patch }
    }

    pub fn lt(&self, other: &Version) -> (r: bool)
        ensures
            r == self.spec_lt(*other),
    {
        if self.major != other.major {
            self.major < other.major
        } else if self.minor != other.minor {
            self.minor < other.minor
        } else {
            self.patch < other.patch
        }
    }

    pub fn le(&self, other: &Version) -> (r: bool)
        ensures
            r == self.spec_le(*other),
    {
        if self.major != other.major {
            self.major < other.major
        } else if self.minor != other.minor {
            self.minor < other.minor
        } else {
            self.patch <= other.patch
        }
    }
}

/// Version order is total: of two versions, one is less than or equal to the
/// other, and mutual `spec_le` means equality.
pub proof fn lemma_version_order_total(a: Version, b: Version)
    ensures
        a.spec_le(b) || b.spec_le(a),
        a.spec_le(b) && b.spec_le(a) ==> a == b,
{
}

/// A version as declared in a package manifest, where the patch component may
/// be left out.
#[derive(Debug, Clone, Copy, PartialEq, Eq, Structural)]
pub enum BareVersion {
    TwoComponents(u64, u64),
    ThreeComponents(u64, u64, u64),
}

impl BareVersion {
    /// The full version a bare manifest version denotes: a missing patch
    /// component reads as zero.
    pub open spec fn spec_to_version(self) -> Version {
        match self {
            BareVersion::TwoComponents(major, minor) => Version { major, minor, patch: 0 },
            BareVersion::ThreeComponents(major, minor, patch) => Version { major, minor, patch },
        }
    }

    pub fn to_semver_version(&self) -> (v: Version)
        ensures
            v == self.spec_to_version(),
    {
        match self {
            BareVersion::TwoComponents(major, minor) => Version {
                major: *major,
                minor: *minor,
                patch: 0,
            },
            BareVersion::ThreeComponents(major, minor, patch) => Version {
                major: *major,
                minor: *minor,
                patch: *patch,
            },
        }
    }
}

} // verus!
