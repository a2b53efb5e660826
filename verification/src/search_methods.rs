use crate::check::ProbeOutcome;
use crate::config::SearchMethod;
use crate::releases::is_minimal_capable_version;
use crate::releases::sorted_descending;
use crate::releases::Release;
use crate::reporter::Output;
use crate::semver::Version;
use vstd::prelude::*;

verus! {

// Candidates are indexed newest first: index 0 is the highest version. A
// monotonic compatibility function then passes on a prefix of the indices,
// and the minimal capable version sits at the last passing index.
/// What a finished search concludes: the index of the minimal capable
/// candidate in the descending candidate list, or that no candidate passed.
#[derive(Debug, Clone, Copy, PartialEq, Eq, Structural)]
pub enum SearchConclusion {
    Capable(usize),
    Exhausted,
}

/// The probe outcomes a search has observed, as a map from candidate index to
/// whether the check passed, agree with a fixed per-candidate truth.
pub open spec fn agrees_with(m: Map<int, bool>, c: Seq<bool>) -> bool {
    forall|k: int| #[trigger] m.dom().contains(k) ==> 0 <= k < c.len() && m[k] == c[k]
}

/// A monotonic compatibility function over a descending candidate list:
/// whenever a candidate passes, every newer (lower-indexed) candidate passes
/// too.
pub open spec fn monotonic_outcomes(c: Seq<bool>) -> bool {
    forall|i: int, j: int| #![trigger c[i], c[j]] 0 <= i <= j < c.len() && c[j] ==> c[i]
}

/// The observations that justify a conclusion. A capable index passed and the
/// next-older candidate, if any, failed; exhaustion means the candidate set
/// was empty or its newest member failed.
pub open spec fn conclusion_supported(m: Map<int, bool>, n: int, v: SearchConclusion) -> bool {
    match v {
        SearchConclusion::Capable(h) => {
            &&& 0 <= h < n
            &&& m.dom().contains(h as int) && m[h as int]
            &&& (h + 1 == n || (m.dom().contains(h as int + 1) && !m[h as int + 1]))
        },
        SearchConclusion::Exhausted => n == 0 || (m.dom().contains(0) && !m[0]),
    }
}

/// The ground truth a conclusion must match: the minimal capable candidate is
/// the last passing index — every older candidate fails — and exhaustion means
/// no candidate passes at all.
pub open spec fn is_minimal_capable_index(c: Seq<bool>, v: SearchConclusion) -> bool {
    match v {
        SearchConclusion::Capable(h) => {
            &&& 0 <= h < c.len()
            &&& c[h as int]
            &&& forall|j: int| h < j < c.len() ==> !c[j]
        },
        SearchConclusion::Exhausted => forall|j: int| 0 <= j < c.len() ==> !c[j],
    }
}

/// Law (monotonic correctness, one search): under a monotonic compatibility
/// function, the few observations a search justifies its conclusion with
/// already pin down the minimal capable candidate exactly.
pub proof fn lemma_search_conclusion_correct(m: Map<int, bool>, c: Seq<bool>, v: SearchConclusion)
    requires
        monotonic_outcomes(c),
        agrees_with(m, c),
        conclusion_supported(m, c.len() as int, v),
    ensures
        is_minimal_capable_index(c, v),
{
    match v {
        SearchConclusion::Capable(h) => {
            assert(c[h as int]);
            assert forall|j: int| h < j < c.len() implies !c[j] by {
                if c[j] {
                    assert(c[h as int + 1]);
                }
            }
        },
        SearchConclusion::Exhausted => {
            assert forall|j: int| 0 <= j < c.len() implies !c[j] by {
                if c[j] {
                    assert(c[0]);
                }
            }
        },
    }
}

/// The minimal capable candidate is unique: two conclusions that both match
/// the ground truth are the same conclusion.
pub proof fn lemma_minimal_capable_unique(c: Seq<bool>, v1: SearchConclusion, v2: SearchConclusion)
    requires
        is_minimal_capable_index(c, v1),
        is_minimal_capable_index(c, v2),
    ensures
        v1 == v2,
{
}

/// Law (monotonic correctness): for one monotonic compatibility function, any
/// two finished searches whose observed outcomes agree with it — a linear scan
/// and a bisection, say — reach the identical conclusion.
pub proof fn lemma_strategies_agree(
    c: Seq<bool>,
    m1: Map<int, bool>,
    v1: SearchConclusion,
    m2: Map<int, bool>,
    v2: SearchConclusion,
)
    requires
        monotonic_outcomes(c),
        agrees_with(m1, c),
        conclusion_supported(m1, c.len() as int, v1),
        agrees_with(m2, c),
        conclusion_supported(m2, c.len() as int, v2),
    ensures
        v1 == v2,
{
    lemma_search_conclusion_correct(m1, c, v1);
    lemma_search_conclusion_correct(m2, c, v2);
    lemma_minimal_capable_unique(c, v1, v2);
}

/// The per-candidate outcomes a compatibility function over versions induces
/// on a candidate list.
pub open spec fn outcomes_of(rs: Seq<Release>, c: spec_fn(Version) -> bool) -> Seq<bool> {
    Seq::new(rs.len(), |i: int| c(rs[i].version))
}

/// The version a conclusion names.
pub open spec fn conclusion_version(rs: Seq<Release>, v: SearchConclusion) -> Option<Version> {
    match v {
        SearchConclusion::Capable(h) => Some(rs[h as int].version),
        SearchConclusion::Exhausted => None,
    }
}

/// Law: over a descending candidate list, a conclusion that matches the
/// index-level ground truth names the minimal capable version. Together with
/// the conclusion-correctness law, this carries a finished search's answer
/// from candidate indices to versions.
pub proof fn lemma_conclusion_names_minimal_version(
    rs: Seq<Release>,
    c: spec_fn(Version) -> bool,
    v: SearchConclusion,
)
    requires
        sorted_descending(rs),
        is_minimal_capable_index(outcomes_of(rs, c), v),
    ensures
        is_minimal_capable_version(rs, c, conclusion_version(rs, v)),
{
    match v {
        SearchConclusion::Capable(h) => {
            assert(outcomes_of(rs, c)[h as int] == c(rs[h as int].version));
            assert(rs[h as int].version == rs[h as int].version);
            assert forall|i: int|
                0 <= i < rs.len() && c(#[trigger] rs[i].version) implies rs[h as int].version.spec_le(
                rs[i].version,
            ) by {
                assert(outcomes_of(rs, c)[i] == c(rs[i].version));
            }
        },
        SearchConclusion::Exhausted => {
            assert forall|i: int| 0 <= i < rs.len() implies !c(#[trigger] rs[i].version) by {
                assert(outcomes_of(rs, c)[i] == c(rs[i].version));
            }
        },
    }
}

/// Over a descending candidate list, a monotonic compatibility function over
/// versions induces monotonic per-candidate outcomes.
pub proof fn lemma_monotonic_compat_gives_monotonic_outcomes(
    rs: Seq<Release>,
    c: spec_fn(Version) -> bool,
)
    requires
        sorted_descending(rs),
        crate::releases::compat_monotonic(c),
    ensures
        monotonic_outcomes(outcomes_of(rs, c)),
{
    let o = outcomes_of(rs, c);
    assert forall|i: int, j: int|
        #![trigger o[i], o[j]]
        0 <= i <= j < o.len() && o[j] implies o[i] by {
        assert(o[j] == c(rs[j].version));
        assert(rs[j].version.spec_le(rs[i].version));
        assert(o[i] == c(rs[i].version));
    }
}

/// Law (monotonic correctness, end to end): any two finished searches over
/// one descending candidate list — a linear scan and a bisection, say — whose
/// observed outcomes agree with one monotonic compatibility function reach
/// the identical conclusion, and that conclusion names the minimal capable
/// version.
pub proof fn lemma_search_methods_equivalent(
    rs: Seq<Release>,
    c: spec_fn(Version) -> bool,
    m1: Map<int, bool>,
    v1: SearchConclusion,
    m2: Map<int, bool>,
    v2: SearchConclusion,
)
    requires
        sorted_descending(rs),
        crate::releases::compat_monotonic(c),
        agrees_with(m1, outcomes_of(rs, c)),
        conclusion_supported(m1, rs.len() as int, v1),
        agrees_with(m2, outcomes_of(rs, c)),
        conclusion_supported(m2, rs.len() as int, v2),
    ensures
        v1 == v2,
        is_minimal_capable_version(rs, c, conclusion_version(rs, v1)),
{
    lemma_monotonic_compat_gives_monotonic_outcomes(rs, c);
    lemma_strategies_agree(outcomes_of(rs, c), m1, v1, m2, v2);
    lemma_search_conclusion_correct(m1, outcomes_of(rs, c), v1);
    lemma_conclusion_names_minimal_version(rs, c, v1);
}

/// The descending linear scan: probe candidates newest first and stop at the
/// first failure; the candidate just before it is the minimal capable one.
/// Checks every candidate down to the answer, so it does not lean on
/// monotonicity — the audit mode.
pub struct Linear {
    pub n: usize,
    pub cursor: usize,
    pub probes: usize,
    pub done: Option<SearchConclusion>,
    pub probed: Ghost<Map<int, bool>>,
}

impl Linear {
    pub open spec fn wf(self) -> bool {
        &&& self.cursor <= self.n
        &&& self.probes <= self.n
        &&& match self.done {
            None => {
                &&& self.cursor < self.n
                &&& self.probes == self.cursor
                &&& forall|k: int|
                    0 <= k < self.cursor ==> #[trigger] self.probed@.dom().contains(k)
                        && self.probed@[k]
                &&& forall|k: int| self.cursor <= k ==> !#[trigger] self.probed@.dom().contains(k)
            },
            Some(v) => conclusion_supported(self.probed@, self.n as int, v),
        }
    }

    /// The outcomes this search has observed, by candidate index.
    pub open spec fn observed(self) -> Map<int, bool> {
        self.probed@
    }

    pub open spec fn candidate_count(self) -> int {
        self.n as int
    }

    pub open spec fn probe_count(self) -> int {
        self.probes as int
    }

    pub open spec fn spec_finished(self) -> bool {
        self.done is Some
    }

    /// The index the scan will probe next: one probe per step, newest first.
    pub open spec fn spec_next_index(self) -> int {
        self.cursor as int
    }

    /// Announces the nominal step total and starts the scan at the newest
    /// candidate. An empty candidate set concludes at once, exhausted, with
    /// zero probes.
    pub fn new<R: Output>(releases: &Vec<Release>, out: &R) -> (s: Linear)
        ensures
            s.wf(),
            s.candidate_count() == releases@.len(),
            s.probe_count() == 0,
            s.observed() == Map::<int, bool>::empty(),
            s.spec_finished() <==> releases@.len() == 0,
            releases@.len() == 0 ==> s.done == Some(SearchConclusion::Exhausted),
    {
        let n = releases.len();
        out.set_steps(n as u64);
        let done = if n == 0 {
            Some(SearchConclusion::Exhausted)
        } else {
            None
        };
        Linear { n, cursor: 0, probes: 0, done, probed: Ghost(Map::empty()) }
    }

    pub fn is_finished(&self) -> (r: bool)
        ensures
            r == self.spec_finished(),
    {
        self.done.is_some()
    }

    /// The next candidate to probe: the newest one not yet probed.
    pub fn next_probe(&self) -> (r: Option<usize>)
        requires
            self.wf(),
        ensures
            match r {
                Some(i) => {
                    &&& !self.spec_finished()
                    &&& i as int == self.spec_next_index()
                    &&& 0 <= i as int && (i as int) < self.candidate_count()
                    &&& !self.observed().dom().contains(i as int)
                },
                None => self.spec_finished(),
            },
    {
        match self.done {
            Some(_) => None,
            None => Some(self.cursor),
        }
    }

    /// Feeds back the outcome of the probe the scan asked for, reports the
    /// completed step, and either advances to the next-older candidate or
    /// concludes.
    pub fn record<R: Output>(&mut self, releases: &Vec<Release>, outcome: ProbeOutcome, out: &R)
        requires
            old(self).wf(),
            !old(self).spec_finished(),
            releases@.len() == old(self).candidate_count(),
        ensures
            final(self).wf(),
            final(self).candidate_count() == old(self).candidate_count(),
            final(self).observed() == old(self).observed().insert(
                old(self).spec_next_index(),
                outcome.spec_is_pass(),
            ),
            final(self).probe_count() == old(self).probe_count() + 1,
            !final(self).spec_finished() ==> final(self).spec_next_index() == old(
                self,
            ).spec_next_index() + 1,
    {
        let idx = self.cursor;
        let pass = outcome.is_pass();
        out.complete_step(&releases[idx].version, pass);
        self.probed = Ghost(self.probed@.insert(idx as int, pass));
        self.probes = self.probes + 1;
        if pass {
            if idx + 1 == self.n {
                self.done = Some(SearchConclusion::Capable(idx));
            } else {
                self.cursor = idx + 1;
            }
        } else {
            if idx == 0 {
                self.done = Some(SearchConclusion::Exhausted);
            } else {
                self.done = Some(SearchConclusion::Capable(idx - 1));
            }
        }
        proof {
            let m0 = old(self).probed@;
            let m1 = self.probed@;
            match self.done {
                None => {
                    assert forall|k: int|
                        0 <= k < self.cursor implies #[trigger] m1.dom().contains(k) && m1[k] by {
                        if k < idx {
                            assert(m0.dom().contains(k));
                        }
                    }
                    assert forall|k: int|
                        self.cursor <= k implies !#[trigger] m1.dom().contains(k) by {
                        assert(!m0.dom().contains(k));
                    }
                },
                Some(SearchConclusion::Capable(h)) => {
                    if pass {
                        assert(m1.dom().contains(idx as int) && m1[idx as int]);
                    } else {
                        assert(m0.dom().contains(idx as int - 1));
                        assert(m1.dom().contains(idx as int - 1) && m1[idx as int - 1]);
                        assert(m1.dom().contains(idx as int) && !m1[idx as int]);
                    }
                },
                Some(SearchConclusion::Exhausted) => {
                    assert(m1.dom().contains(0) && !m1[0]);
                },
            }
        }
    }

    /// The conclusion of a finished scan, justified by its observations.
    pub fn conclusion(&self) -> (v: SearchConclusion)
        requires
            self.wf(),
            self.spec_finished(),
        ensures
            self.done == Some(v),
            conclusion_supported(self.observed(), self.candidate_count(), v),
    {
        match self.done {
            Some(v) => v,
            None => unreached(),
        }
    }
}

/// Law (probe count): a linear search issues at most `n` probes over `n`
/// candidates.
pub proof fn lemma_linear_probe_bound(s: Linear)
    requires
        s.wf(),
    ensures
        s.probe_count() <= s.candidate_count(),
{
}

/// How many halvings bring an interval of `s` candidates down to nothing: the
/// probe budget bisection lives within.
pub open spec fn bisect_budget(s: nat) -> nat
    decreases s,
{
    if s == 0 {
        0
    } else {
        1 + bisect_budget((s / 2) as nat)
    }
}

/// The ceiling of the base-two logarithm.
pub open spec fn ceil_log2(n: nat) -> nat
    decreases n,
{
    if n <= 1 {
        0
    } else {
        1 + ceil_log2(((n + 1) / 2) as nat)
    }
}

proof fn lemma_bisect_budget_monotonic(a: nat, b: nat)
    requires
        a <= b,
    ensures
        bisect_budget(a) <= bisect_budget(b),
    decreases b,
{
    if a > 0 {
        lemma_bisect_budget_monotonic((a / 2) as nat, (b / 2) as nat);
    }
}

proof fn lemma_ceil_log2_monotonic(a: nat, b: nat)
    requires
        a <= b,
    ensures
        ceil_log2(a) <= ceil_log2(b),
    decreases b,
{
    if a > 1 {
        lemma_ceil_log2_monotonic(((a + 1) / 2) as nat, ((b + 1) / 2) as nat);
    }
}

proof fn lemma_budget_le_ceil_log2(n: nat)
    ensures
        bisect_budget(n) <= ceil_log2(n) + 1,
    decreases n,
{
    if n == 1 {
        assert(bisect_budget(0) == 0);
    } else if n > 1 {
        lemma_budget_le_ceil_log2((n / 2) as nat);
        lemma_ceil_log2_monotonic((n / 2) as nat, ((n + 1) / 2) as nat);
    }
}

proof fn lemma_bisect_budget_le(n: nat)
    ensures
        bisect_budget(n) <= n,
    decreases n,
{
    if n > 0 {
        lemma_bisect_budget_le((n / 2) as nat);
    }
}

/// Bisection over the descending candidate range, the fast default. The open
/// interval `[lo, hi)` is what remains undecided: everything below `lo` is
/// known to pass, everything from `hi` on is known to fail. Correct only for
/// monotonic compatibility functions.
pub struct Bisect {
    pub n: usize,
    pub lo: usize,
    pub hi: usize,
    pub probes: usize,
    pub probed: Ghost<Map<int, bool>>,
}

impl Bisect {
    pub open spec fn wf(self) -> bool {
        &&& self.lo <= self.hi <= self.n
        &&& (self.lo > 0 ==> self.probed@.dom().contains(self.lo as int - 1) && self.probed@[self.lo
            as int - 1])
        &&& (self.hi < self.n ==> self.probed@.dom().contains(self.hi as int)
            && !self.probed@[self.hi as int])
        &&& forall|k: int| self.lo <= k < self.hi ==> !#[trigger] self.probed@.dom().contains(k)
        &&& self.probes + bisect_budget((self.hi - self.lo) as nat) <= bisect_budget(self.n as nat)
    }

    /// The outcomes this search has observed, by candidate index.
    pub open spec fn observed(self) -> Map<int, bool> {
        self.probed@
    }

    pub open spec fn candidate_count(self) -> int {
        self.n as int
    }

    pub open spec fn probe_count(self) -> int {
        self.probes as int
    }

    pub open spec fn spec_finished(self) -> bool {
        self.lo == self.hi
    }

    /// The midpoint of the undecided interval: the index probed next.
    pub open spec fn spec_next_index(self) -> int {
        self.lo + (self.hi - self.lo) / 2
    }

    /// Announces the nominal step total — the full candidate count, though far
    /// fewer probes will run — and opens the interval over all candidates.
    pub fn new<R: Output>(releases: &Vec<Release>, out: &R) -> (s: Bisect)
        ensures
            s.wf(),
            s.candidate_count() == releases@.len(),
            s.probe_count() == 0,
            s.observed() == Map::<int, bool>::empty(),
            s.spec_finished() <==> releases@.len() == 0,
    {
        let n = releases.len();
        out.set_steps(n as u64);
        Bisect { n, lo: 0, hi: n, probes: 0, probed: Ghost(Map::empty()) }
    }

    pub fn is_finished(&self) -> (r: bool)
        ensures
            r == self.spec_finished(),
    {
        self.lo == self.hi
    }

    /// The next candidate to probe: the midpoint of the undecided interval.
    pub fn next_probe(&self) -> (r: Option<usize>)
        requires
            self.wf(),
        ensures
            match r {
                Some(i) => {
                    &&& !self.spec_finished()
                    &&& i as int == self.spec_next_index()
                    &&& 0 <= i as int && (i as int) < self.candidate_count()
                    &&& !self.observed().dom().contains(i as int)
                },
                None => self.spec_finished(),
            },
    {
        if self.lo == self.hi {
            None
        } else {
            Some(self.lo + (self.hi - self.lo) / 2)
        }
    }

    /// Feeds back the outcome of the midpoint probe, reports the completed
    /// step, and halves the undecided interval: a pass moves the known-passing
    /// boundary past the midpoint, a failure makes the midpoint the
    /// known-failing boundary.
    pub fn record<R: Output>(&mut self, releases: &Vec<Release>, outcome: ProbeOutcome, out: &R)
        requires
            old(self).wf(),
            !old(self).spec_finished(),
            releases@.len() == old(self).candidate_count(),
        ensures
            final(self).wf(),
            final(self).candidate_count() == old(self).candidate_count(),
            final(self).observed() == old(self).observed().insert(
                old(self).spec_next_index(),
                outcome.spec_is_pass(),
            ),
            final(self).probe_count() == old(self).probe_count() + 1,
    {
        let mid = self.lo + (self.hi - self.lo) / 2;
        let pass = outcome.is_pass();
        out.complete_step(&releases[mid].version, pass);
        self.probed = Ghost(self.probed@.insert(mid as int, pass));
        proof {
            let s = (self.hi - self.lo) as nat;
            let s2 = (s / 2) as nat;
            assert(bisect_budget(s) == 1 + bisect_budget(s2));
            assert(bisect_budget(s2) >= 0);
            lemma_bisect_budget_le(self.n as nat);
            lemma_bisect_budget_monotonic((s - s2 - 1) as nat, s2);
        }
        self.probes = self.probes + 1;
        if pass {
            self.lo = mid + 1;
        } else {
            self.hi = mid;
        }
        proof {
            let m0 = old(self).probed@;
            let m1 = self.probed@;
            assert forall|k: int| self.lo <= k < self.hi implies !#[trigger] m1.dom().contains(
                k,
            ) by {
                assert(!m0.dom().contains(k));
            }
        }
    }

    /// The conclusion of a finished bisection, justified by the boundary
    /// observations: the candidate just below the collapsed interval is the
    /// minimal capable one, and an interval collapsed at the newest candidate
    /// means exhaustion.
    pub fn conclusion(&self) -> (v: SearchConclusion)
        requires
            self.wf(),
            self.spec_finished(),
        ensures
            conclusion_supported(self.observed(), self.candidate_count(), v),
    {
        if self.lo == 0 {
            SearchConclusion::Exhausted
        } else {
            SearchConclusion::Capable(self.lo - 1)
        }
    }
}

/// Law (probe count): bisection issues at most `ceil(log2 n) + 1` probes over
/// `n` candidates.
pub proof fn lemma_bisect_probe_bound(s: Bisect)
    requires
        s.wf(),
    ensures
        s.probe_count() <= ceil_log2(s.candidate_count() as nat) + 1,
{
    lemma_budget_le_ceil_log2(s.n as nat);
}

/// One search, stepped with whichever strategy the configuration chose.
pub enum SearchRunner {
    Linear(Linear),
    Bisect(Bisect),
}

impl SearchRunner {
    pub open spec fn wf(self) -> bool {
        match self {
            SearchRunner::Linear(s) => s.wf(),
            SearchRunner::Bisect(s) => s.wf(),
        }
    }

    pub open spec fn observed(self) -> Map<int, bool> {
        match self {
            SearchRunner::Linear(s) => s.observed(),
            SearchRunner::Bisect(s) => s.observed(),
        }
    }

    pub open spec fn candidate_count(self) -> int {
        match self {
            SearchRunner::Linear(s) => s.candidate_count(),
            SearchRunner::Bisect(s) => s.candidate_count(),
        }
    }

    pub open spec fn probe_count(self) -> int {
        match self {
            SearchRunner::Linear(s) => s.probe_count(),
            SearchRunner::Bisect(s) => s.probe_count(),
        }
    }

    pub open spec fn spec_finished(self) -> bool {
        match self {
            SearchRunner::Linear(s) => s.spec_finished(),
            SearchRunner::Bisect(s) => s.spec_finished(),
        }
    }

    pub open spec fn spec_next_index(self) -> int {
        match self {
            SearchRunner::Linear(s) => s.spec_next_index(),
            SearchRunner::Bisect(s) => s.spec_next_index(),
        }
    }

    /// Starts a search over the candidate set with the chosen strategy; both
    /// strategies announce the candidate count as their nominal step total.
    pub fn new<R: Output>(method: SearchMethod, releases: &Vec<Release>, out: &R) -> (s:
        SearchRunner)
        ensures
            s.wf(),
            s.candidate_count() == releases@.len(),
            s.probe_count() == 0,
            s.observed() == Map::<int, bool>::empty(),
            s.spec_finished() <==> releases@.len() == 0,
            method == SearchMethod::Linear <==> s is Linear,
    {
        match method {
            SearchMethod::Linear => SearchRunner::Linear(Linear::new(releases, out)),
            SearchMethod::Bisect => SearchRunner::Bisect(Bisect::new(releases, out)),
        }
    }

    pub fn is_finished(&self) -> (r: bool)
        ensures
            r == self.spec_finished(),
    {
        match self {
            SearchRunner::Linear(s) => s.is_finished(),
            SearchRunner::Bisect(s) => s.is_finished(),
        }
    }

    /// The candidate the strategy wants probed next; never one it has already
    /// seen an outcome for.
    pub fn next_probe(&self) -> (r: Option<usize>)
        requires
            self.wf(),
        ensures
            match r {
                Some(i) => {
                    &&& !self.spec_finished()
                    &&& i as int == self.spec_next_index()
                    &&& 0 <= i as int && (i as int) < self.candidate_count()
                    &&& !self.observed().dom().contains(i as int)
                },
                None => self.spec_finished(),
            },
    {
        match self {
            SearchRunner::Linear(s) => s.next_probe(),
            SearchRunner::Bisect(s) => s.next_probe(),
        }
    }

    /// Feeds back the outcome of the probe the strategy asked for.
    pub fn record<R: Output>(&mut self, releases: &Vec<Release>, outcome: ProbeOutcome, out: &R)
        requires
            old(self).wf(),
            !old(self).spec_finished(),
            releases@.len() == old(self).candidate_count(),
        ensures
            final(self).wf(),
            final(self).candidate_count() == old(self).candidate_count(),
            final(self).observed() == old(self).observed().insert(
                old(self).spec_next_index(),
                outcome.spec_is_pass(),
            ),
            final(self).probe_count() == old(self).probe_count() + 1,
            (*final(self)) is Linear <==> (*old(self)) is Linear,
    {
        match self {
            SearchRunner::Linear(s) => s.record(releases, outcome, out),
            SearchRunner::Bisect(s) => s.record(releases, outcome, out),
        }
    }

    /// The conclusion of a finished search, justified by its observations.
    pub fn conclusion(&self) -> (v: SearchConclusion)
        requires
            self.wf(),
            self.spec_finished(),
        ensures
            conclusion_supported(self.observed(), self.candidate_count(), v),
    {
        match self {
            SearchRunner::Linear(s) => s.conclusion(),
            SearchRunner::Bisect(s) => s.conclusion(),
        }
    }
}

} // verus!
