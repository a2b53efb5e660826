use crate::edition::Edition;
use crate::semver::Version;
use vstd::prelude::*;

verus! {

/// One entry of the release catalogue: a version and whether it is a stable
/// release (as opposed to a beta or nightly build).
#[derive(Debug, Clone, Copy, PartialEq, Eq, Structural)]
pub struct Release {
    pub version: Version,
    pub stable: bool,
}

impl Release {
    pub fn new_stable(version: Version) -> (r: Release)
        ensures
            r == (Release { version, stable: true }),
    {
        Release { version, stable: true }
    }

    pub fn new_unstable(version: Version) -> (r: Release)
        ensures
            r == (Release { version, stable: false }),
    {
        Release { version, stable: false }
    }

    pub fn version(&self) -> (v: &Version)
        ensures
            *v == self.version,
    {
        &self.version
    }
}

/// The filters that cut the raw release catalogue down to the candidate
/// version set: optional explicit bounds, a stable-only switch, and an
/// optional edition-derived lower bound used purely to prune the search.
#[derive(Debug, Clone, Copy, PartialEq, Eq, Structural)]
pub struct VersionFilter {
    pub min: Option<Version>,
    pub max: Option<Version>,
    pub stable_only: bool,
    pub edition_floor: Option<Edition>,
}

/// Whether a release survives the filter.
pub open spec fn spec_include(f: VersionFilter, r: Release) -> bool {
    &&& match f.min {
        Some(m) => m.spec_le(r.version),
        None => true,
    }
    &&& match f.max {
        Some(m) => r.version.spec_le(m),
        None => true,
    }
    &&& (f.stable_only ==> r.stable)
    &&& match f.edition_floor {
        Some(e) => e.spec_first_version().spec_le(r.version),
        None => true,
    }
}

/// The subsequence of `s` that survives the filter, in catalogue order.
pub open spec fn spec_filter_releases(f: VersionFilter, s: Seq<Release>) -> Seq<Release>
    decreases s.len(),
{
    if s.len() == 0 {
        Seq::empty()
    } else {
        let rest = spec_filter_releases(f, s.drop_last());
        if spec_include(f, s.last()) {
            rest.push(s.last())
        } else {
            rest
        }
    }
}

/// Whether a release passes the filter's bounds alone.
pub fn include_release(f: &VersionFilter, r: &Release) -> (b: bool)
    ensures
        b == spec_include(*f, *r),
{
    let min_ok = match &f.min {
        Some(m) => m.le(&r.version),
        None => true,
    };
    let max_ok = match &f.max {
        Some(m) => r.version.le(m),
        None => true,
    };
    let stable_ok = !f.stable_only || r.stable;
    let edition_ok = match &f.edition_floor {
        Some(e) => e.first_version().le(&r.version),
        None => true,
    };
    min_ok && max_ok && stable_ok && edition_ok
}

/// Builds the candidate version set: the releases of the catalogue that lie
/// within the bounds, are stable if only stable releases are wanted, and do
/// not predate the declared edition's first supporting release. An empty
/// result is a legal outcome, not an error.
pub fn filter_releases(f: &VersionFilter, releases: &Vec<Release>) -> (r: Vec<Release>)
    ensures
        r@ == spec_filter_releases(*f, releases@),
{
    let mut out: Vec<Release> = Vec::new();
    let n = releases.len();
    let mut i: usize = 0;
    while i < n
        invariant
            i <= n,
            n == releases@.len(),
            out@ == spec_filter_releases(*f, releases@.take(i as int)),
        decreases n - i,
    {
        let rel = releases[i];
        proof {
            assert(releases@.take(i as int + 1).drop_last() =~= releases@.take(i as int));
            assert(releases@.take(i as int + 1).last() == releases@[i as int]);
        }
        if include_release(f, &rel) {
            out.push(rel);
        }
        i = i + 1;
    }
    proof {
        assert(releases@.take(n as int) =~= releases@);
    }
    out
}

/// Every release the filter keeps comes from the catalogue and satisfies the
/// filter; in particular, the edition floor never re-admits a release the
/// explicit bounds exclude.
pub proof fn lemma_filter_sound(f: VersionFilter, s: Seq<Release>, j: int)
    requires
        0 <= j < spec_filter_releases(f, s).len(),
    ensures
        s.contains(spec_filter_releases(f, s)[j]),
        spec_include(f, spec_filter_releases(f, s)[j]),
    decreases s.len(),
{
    if s.len() > 0 {
        let rest = spec_filter_releases(f, s.drop_last());
        if spec_include(f, s.last()) && j == rest.len() {
            assert(s[s.len() - 1] == s.last());
        } else {
            lemma_filter_sound(f, s.drop_last(), j);
            assert(s.drop_last()[choose|k: int|
                0 <= k < s.drop_last().len() && s.drop_last()[k] == spec_filter_releases(
                    f,
                    s.drop_last(),
                )[j]] == spec_filter_releases(f, s.drop_last())[j]);
            let k = choose|k: int|
                0 <= k < s.drop_last().len() && s.drop_last()[k] == spec_filter_releases(
                    f,
                    s.drop_last(),
                )[j];
            assert(s[k] == spec_filter_releases(f, s)[j]);
        }
    }
}

/// Every catalogue release that satisfies the filter is kept by it.
pub proof fn lemma_filter_complete(f: VersionFilter, s: Seq<Release>, i: int)
    requires
        0 <= i < s.len(),
        spec_include(f, s[i]),
    ensures
        spec_filter_releases(f, s).contains(s[i]),
    decreases s.len(),
{
    if i == s.len() - 1 {
        let r = spec_filter_releases(f, s);
        assert(r[r.len() - 1] == s.last());
    } else {
        lemma_filter_complete(f, s.drop_last(), i);
        let rest = spec_filter_releases(f, s.drop_last());
        let k = choose|k: int| 0 <= k < rest.len() && rest[k] == s.drop_last()[i];
        assert(spec_filter_releases(f, s)[k] == s[i]);
    }
}

/// A release kept by one filter and satisfying another is kept by the other
/// too.
proof fn lemma_filter_transfer(g1: VersionFilter, g2: VersionFilter, s: Seq<Release>, j: int)
    requires
        0 <= j < spec_filter_releases(g1, s).len(),
        spec_include(g2, spec_filter_releases(g1, s)[j]),
    ensures
        spec_filter_releases(g2, s).contains(spec_filter_releases(g1, s)[j]),
{
    lemma_filter_sound(g1, s, j);
    let x = spec_filter_releases(g1, s)[j];
    let k = choose|k: int| 0 <= k < s.len() && s[k] == x;
    lemma_filter_complete(g2, s, k);
}

/// A compatibility function over versions, monotonic: whenever a version
/// passes the check, every higher version passes too.
pub open spec fn compat_monotonic(c: spec_fn(Version) -> bool) -> bool {
    forall|a: Version, b: Version| a.spec_le(b) && #[trigger] c(a) ==> #[trigger] c(b)
}

/// The ground truth of a search over a candidate list: the minimal capable
/// version is a candidate that passes the check, with no passing candidate
/// below it — and `None` means no candidate passes at all.
pub open spec fn is_minimal_capable_version(
    rs: Seq<Release>,
    c: spec_fn(Version) -> bool,
    res: Option<Version>,
) -> bool {
    match res {
        Some(v) => {
            &&& exists|i: int| 0 <= i < rs.len() && #[trigger] rs[i].version == v
            &&& c(v)
            &&& forall|i: int|
                0 <= i < rs.len() && c(#[trigger] rs[i].version) ==> v.spec_le(rs[i].version)
        },
        None => forall|i: int| 0 <= i < rs.len() ==> !c(#[trigger] rs[i].version),
    }
}

/// Law (edition pruning never changes the answer): when the edition floor is
/// sound — no version below the floor can pass the check — a candidate set
/// pruned by it has exactly the minimal capable versions of the unpruned one,
/// for any monotonic compatibility function. Pruning only shortens the
/// search.
pub proof fn lemma_edition_pruning_preserves_verdict(
    f: VersionFilter,
    e: Edition,
    catalogue: Seq<Release>,
    c: spec_fn(Version) -> bool,
    res: Option<Version>,
)
    requires
        compat_monotonic(c),
        f.edition_floor is None,
        forall|v: Version| v.spec_lt(e.spec_first_version()) ==> !#[trigger] c(v),
    ensures
        is_minimal_capable_version(spec_filter_releases(f, catalogue), c, res)
            <==> is_minimal_capable_version(
            spec_filter_releases(
                VersionFilter {
                    min: f.min,
                    max: f.max,
                    stable_only: f.stable_only,
                    edition_floor: Some(e),
                },
                catalogue,
            ),
            c,
            res,
        ),
{
    let fe = VersionFilter {
        min: f.min,
        max: f.max,
        stable_only: f.stable_only,
        edition_floor: Some(e),
    };
    let full = spec_filter_releases(f, catalogue);
    let pruned = spec_filter_releases(fe, catalogue);
    let floor = e.spec_first_version();
    // A passing release always clears the floor.
    assert forall|v: Version| #[trigger] c(v) implies floor.spec_le(v) by {
        crate::semver::lemma_version_order_total(v, floor);
    }
    // Kept by the pruning filter means kept by the plain one.
    assert forall|j: int| 0 <= j < pruned.len() implies full.contains(#[trigger] pruned[j]) by {
        lemma_filter_sound(fe, catalogue, j);
        lemma_filter_transfer(fe, f, catalogue, j);
    }
    // Kept by the plain filter and passing means kept by the pruning one.
    assert forall|i: int| 0 <= i < full.len() && c(full[i].version) implies pruned.contains(
        #[trigger] full[i],
    ) by {
        lemma_filter_sound(f, catalogue, i);
        lemma_filter_transfer(f, fe, catalogue, i);
    }
    if is_minimal_capable_version(full, c, res) {
        match res {
            Some(v) => {
                let i = choose|i: int| 0 <= i < full.len() && full[i].version == v;
                assert(pruned.contains(full[i]));
                assert forall|j: int|
                    0 <= j < pruned.len() && c(#[trigger] pruned[j].version) implies v.spec_le(
                    pruned[j].version,
                ) by {
                    let k = choose|k: int| 0 <= k < full.len() && full[k] == pruned[j];
                }
            },
            None => {
                assert forall|j: int| 0 <= j < pruned.len() implies !c(
                    #[trigger] pruned[j].version,
                ) by {
                    let k = choose|k: int| 0 <= k < full.len() && full[k] == pruned[j];
                }
            },
        }
    }
    if is_minimal_capable_version(pruned, c, res) {
        match res {
            Some(v) => {
                let i = choose|i: int| 0 <= i < pruned.len() && pruned[i].version == v;
                assert(full.contains(pruned[i]));
                assert forall|j: int|
                    0 <= j < full.len() && c(#[trigger] full[j].version) implies v.spec_le(
                    full[j].version,
                ) by {
                    assert(pruned.contains(full[j]));
                    let k = choose|k: int| 0 <= k < pruned.len() && pruned[k] == full[j];
                }
            },
            None => {
                assert forall|j: int| 0 <= j < full.len() implies !c(
                    #[trigger] full[j].version,
                ) by {
                    if c(full[j].version) {
                        assert(pruned.contains(full[j]));
                        let k = choose|k: int| 0 <= k < pruned.len() && pruned[k] == full[j];
                    }
                }
            },
        }
    }
}

/// The catalogue (and so the candidate set) is ordered newest first.
pub open spec fn sorted_descending(s: Seq<Release>) -> bool {
    forall|i: int, j: int|
        0 <= i <= j < s.len() ==> #[trigger] s[j].version.spec_le(#[trigger] s[i].version)
}

/// Filtering keeps the catalogue's order: a descending catalogue yields a
/// descending candidate set.
pub proof fn lemma_filter_preserves_order(f: VersionFilter, s: Seq<Release>)
    requires
        sorted_descending(s),
    ensures
        sorted_descending(spec_filter_releases(f, s)),
    decreases s.len(),
{
    if s.len() > 0 {
        assert(forall|i: int, j: int|
            0 <= i <= j < s.drop_last().len() ==> #[trigger] s.drop_last()[j].version.spec_le(
                #[trigger] s.drop_last()[i].version,
            ));
        lemma_filter_preserves_order(f, s.drop_last());
        let r = spec_filter_releases(f, s);
        let rest = spec_filter_releases(f, s.drop_last());
        if spec_include(f, s.last()) {
            assert forall|i: int, j: int| 0 <= i <= j < r.len() implies #[trigger] r[j].version.spec_le(
                #[trigger] r[i].version,
            ) by {
                if j == r.len() - 1 && i < j {
                    lemma_filter_sound(f, s.drop_last(), i);
                    let k = choose|k: int|
                        0 <= k < s.drop_last().len() && s.drop_last()[k] == rest[i];
                    assert(s[k] == r[i]);
                    assert(s.last() == s[s.len() - 1]);
                }
            }
        }
    }
}

} // verus!
