use crate::semver::Version;
use crate::target::InnerTarget;
use crate::target::Target;
use once_cell::unsync::OnceCell;
use vstd::prelude::*;

verus! {

#[verifier::external_type_specification]
#[verifier::external_body]
#[verifier::reject_recursive_types(T)]
pub struct ExOnceCell<T>(OnceCell<T>);

/// What a string cell holds: nothing yet, or the one string it was
/// initialized with.
pub uninterp spec fn cell_value(c: OnceCell<String>) -> Option<Seq<char>>;

/// Relies on `once_cell::unsync::OnceCell::new`: a fresh cell is empty.
#[verifier::external_body]
fn cell_new() -> (r: OnceCell<String>)
    ensures
        cell_value(r) is None,
{
    OnceCell::new()
}

/// Relies on `once_cell::unsync::OnceCell::get`: reading an empty cell gives
/// nothing, reading a filled cell gives the stored value; the cell is
/// untouched either way.
#[verifier::external_body]
fn cell_get(c: &OnceCell<String>) -> (r: Option<String>)
    ensures
        match r {
            Some(s) => cell_value(*c) == Some(s@),
            None => cell_value(*c) is None,
        },
{
    c.get().cloned()
}

/// Relies on `once_cell::unsync::OnceCell::get_or_init`: returns the stored
/// value if the cell is filled, and otherwise stores the given value first —
/// a filled cell is never written again.
#[verifier::external_body]
fn cell_get_or_init(c: &mut OnceCell<String>, v: String) -> (r: String)
    ensures
        match cell_value(*old(c)) {
            Some(s) => r@ == s && cell_value(*final(c)) == cell_value(*old(c)),
            None => r@ == v@ && cell_value(*final(c)) == Some(v@),
        },
{
    c.get_or_init(move || v).clone()
}

/// Relies on `once_cell::unsync::OnceCell::clone`: the clone holds the same
/// value as the cell it was cloned from.
#[verifier::external_body]
fn cell_clone(c: &OnceCell<String>) -> (r: OnceCell<String>)
    ensures
        cell_value(r) == cell_value(*c),
{
    c.clone()
}

/// The decimal digits of `n`, most significant first.
pub open spec fn spec_decimal(n: nat) -> Seq<char>
    decreases n,
{
    if n < 10 {
        seq![spec_digit_char(n)]
    } else {
        spec_decimal(n / 10).push(spec_digit_char(n % 10))
    }
}

pub open spec fn spec_digit_char(d: nat) -> char {
    if d == 0 {
        '0'
    } else if d == 1 {
        '1'
    } else if d == 2 {
        '2'
    } else if d == 3 {
        '3'
    } else if d == 4 {
        '4'
    } else if d == 5 {
        '5'
    } else if d == 6 {
        '6'
    } else if d == 7 {
        '7'
    } else if d == 8 {
        '8'
    } else {
        '9'
    }
}

/// The canonical form a toolchain is addressed by: the dotted decimal
/// version, a dash, and the target triple.
pub open spec fn spec_toolchain_string(v: Version, target: Seq<char>) -> Seq<char> {
    spec_decimal(v.major as nat) + seq!['.'] + spec_decimal(v.minor as nat) + seq!['.']
        + spec_decimal(v.patch as nat) + seq!['-'] + target
}

/// Relies on std's `format!` over unsigned integers and string slices: each
/// component renders as its decimal digits, joined as `{version}-{target}`.
#[verifier::external_body]
fn make_toolchain_spec(version: &Version, target: &str) -> (r: String)
    ensures
        r@ == spec_toolchain_string(*version, target@),
{
    format!("{}.{}.{}-{}", version.major, version.minor, version.patch, target)
}

/// An immutable (version, target) pair addressing one concrete toolchain,
/// borrowing both from its constructor. Its canonical string form is computed
/// once, on first use, and cached in a single-initialization cell.
#[derive(Debug)]
pub struct ToolchainSpec<'spec> {
    pub version: &'spec Version,
    pub target: &'spec Target,
    pub rendered: OnceCell<String>,
}

impl<'spec> ToolchainSpec<'spec> {
    /// The cache is either still empty or holds exactly the canonical string
    /// of this spec's version and resolved target.
    pub open spec fn wf(self) -> bool {
        match cell_value(self.rendered) {
            Some(s) => match self.target.inner {
                InnerTarget::Custom(t) => s == spec_toolchain_string(*self.version, t@),
                InnerTarget::PlatformDefault => false,
            },
            None => true,
        }
    }

    pub fn new(version: &'spec Version, target: &'spec Target) -> (s: Self)
        ensures
            s.wf(),
            s.version == version,
            s.target == target,
            cell_value(s.rendered) is None,
    {
        ToolchainSpec { version, target, rendered: cell_new() }
    }

    /// The canonical `{version}-{target}` form, rendered on the first call
    /// and answered from the cache afterwards. The target must already be a
    /// resolved triple: the platform default is resolved by the embedding
    /// binary before specs are built.
    pub fn spec(&mut self) -> (r: String)
        requires
            old(self).wf(),
            old(self).target.inner is Custom,
        ensures
            final(self).wf(),
            final(self).version == old(self).version,
            final(self).target == old(self).target,
            cell_value(final(self).rendered) == Some(r@),
            match final(self).target.inner {
                InnerTarget::Custom(t) => r@ == spec_toolchain_string(*final(self).version, t@),
                InnerTarget::PlatformDefault => false,
            },
    {
        match cell_get(&self.rendered) {
            Some(s) => s,
            None => {
                let version = self.version;
                let computed = match self.target.target() {
                    Some(triple) => make_toolchain_spec(version, triple.as_str()),
                    None => unreached(),
                };
                cell_get_or_init(&mut self.rendered, computed)
            },
        }
    }

    pub fn version(&self) -> (v: &Version)
        ensures
            v == self.version,
    {
        self.version
    }

    /// An owning copy, carrying the cached string form along so it is never
    /// rendered twice.
    pub fn to_owned(&self) -> (o: OwnedToolchainSpec)
        requires
            self.wf(),
        ensures
            o.wf(),
            o.version == *self.version,
            o.target == *self.target,
            cell_value(o.rendered) == cell_value(self.rendered),
    {
        OwnedToolchainSpec {
            version: *self.version,
            target: self.target.clone(),
            rendered: cell_clone(&self.rendered),
        }
    }
}

/// An immutable (version, target) pair addressing one concrete toolchain,
/// owning its parts; otherwise as `ToolchainSpec`.
#[derive(Debug)]
pub struct OwnedToolchainSpec {
    pub version: Version,
    pub target: Target,
    pub rendered: OnceCell<String>,
}

impl OwnedToolchainSpec {
    pub open spec fn wf(self) -> bool {
        match cell_value(self.rendered) {
            Some(s) => match self.target.inner {
                InnerTarget::Custom(t) => s == spec_toolchain_string(self.version, t@),
                InnerTarget::PlatformDefault => false,
            },
            None => true,
        }
    }

    pub fn new(version: &Version, target: Target) -> (s: Self)
        ensures
            s.wf(),
            s.version == *version,
            s.target == target,
            cell_value(s.rendered) is None,
    {
        OwnedToolchainSpec { version: *version, target, rendered: cell_new() }
    }

    /// The canonical `{version}-{target}` form, rendered once and cached.
    pub fn spec(&mut self) -> (r: String)
        requires
            old(self).wf(),
            old(self).target.inner is Custom,
        ensures
            final(self).wf(),
            final(self).version == old(self).version,
            final(self).target == old(self).target,
            cell_value(final(self).rendered) == Some(r@),
            match final(self).target.inner {
                InnerTarget::Custom(t) => r@ == spec_toolchain_string(final(self).version, t@),
                InnerTarget::PlatformDefault => false,
            },
    {
        match cell_get(&self.rendered) {
            Some(s) => s,
            None => {
                let version = self.version;
                let computed = match self.target.target() {
                    Some(triple) => make_toolchain_spec(&version, triple.as_str()),
                    None => unreached(),
                };
                cell_get_or_init(&mut self.rendered, computed)
            },
        }
    }

    pub fn version(&self) -> (v: &Version)
        ensures
            v == self.version,
    {
        &self.version
    }
}

} // verus!
