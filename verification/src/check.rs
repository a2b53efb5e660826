use crate::semver::Version;
use crate::target::Target;
use vstd::prelude::*;

verus! {

/// Why a probe failed: the toolchain could not be installed, or the check
/// command did not succeed under it. The distinction is diagnostic only —
/// either way the probed version counts as incompatible and the search goes
/// on.
#[derive(Debug, Clone, Copy, PartialEq, Eq, Structural)]
pub enum ProbeFailReason {
    InstallError,
    CheckFailed,
}

/// The classified outcome of probing one candidate version.
#[derive(Debug, Clone, Copy, PartialEq, Eq, Structural)]
pub enum ProbeOutcome {
    Pass,
    Fail(ProbeFailReason),
}

impl ProbeOutcome {
    pub open spec fn spec_is_pass(self) -> bool {
        self is Pass
    }

    pub fn is_pass(&self) -> (r: bool)
        ensures
            r == self.spec_is_pass(),
    {
        match self {
            ProbeOutcome::Pass => true,
            ProbeOutcome::Fail(_) => false,
        }
    }
}

/// The outcome recorded for a version in a probe cache, scanning from the
/// front: the first entry with that version answers.
pub open spec fn spec_lookup(s: Seq<(Version, ProbeOutcome)>, v: Version) -> Option<ProbeOutcome>
    decreases s.len(),
{
    if s.len() == 0 {
        None
    } else if s[0].0 == v {
        Some(s[0].1)
    } else {
        spec_lookup(s.drop_first(), v)
    }
}

proof fn lemma_lookup_push(s: Seq<(Version, ProbeOutcome)>, v: Version, o: ProbeOutcome, w: Version)
    ensures
        spec_lookup(s.push((v, o)), w) == (if spec_lookup(s, w) is Some {
            spec_lookup(s, w)
        } else if w == v {
            Some(o)
        } else {
            None::<ProbeOutcome>
        }),
    decreases s.len(),
{
    let p = s.push((v, o));
    if s.len() == 0 {
        assert(p[0] == (v, o));
        assert(p.drop_first() =~= Seq::<(Version, ProbeOutcome)>::empty());
        assert(spec_lookup(Seq::<(Version, ProbeOutcome)>::empty(), w) is None);
        if p[0].0 == w {
            assert(spec_lookup(p, w) == Some(o));
        } else {
            assert(spec_lookup(p, w) == spec_lookup(p.drop_first(), w));
        }
    } else {
        lemma_lookup_push(s.drop_first(), v, o, w);
        assert(p[0] == s[0]);
        assert(p.drop_first() =~= s.drop_first().push((v, o)));
        if s[0].0 == w {
            assert(spec_lookup(p, w) == Some(s[0].1));
            assert(spec_lookup(s, w) == Some(s[0].1));
        } else {
            assert(spec_lookup(p, w) == spec_lookup(s.drop_first().push((v, o)), w));
            assert(spec_lookup(s, w) == spec_lookup(s.drop_first(), w));
        }
    }
}

/// One run's compatibility prober: the check command and target are fixed for
/// the run, and each probed version's outcome is memoized, so one
/// `(version, target, command)` key never invokes the external check twice.
pub struct Prober {
    pub target: Target,
    pub check_command: String,
    pub cache: Vec<(Version, ProbeOutcome)>,
}

impl Prober {
    /// The memoized outcome for a version, if the run has probed it.
    pub open spec fn cached(self, v: Version) -> Option<ProbeOutcome> {
        spec_lookup(self.cache@, v)
    }

    pub fn new(target: Target, check_command: String) -> (p: Prober)
        ensures
            p.target == target,
            p.check_command == check_command,
            forall|v: Version| #[trigger] p.cached(v) is None,
    {
        Prober { target, check_command, cache: Vec::new() }
    }

    /// Answers a probe from the cache where it can: a `Some` result means the
    /// external check must not run again for this version.
    pub fn lookup(&self, v: &Version) -> (r: Option<ProbeOutcome>)
        ensures
            r == self.cached(*v),
    {
        let n = self.cache.len();
        let mut i: usize = 0;
        proof {
            assert(self.cache@.skip(0) =~= self.cache@);
        }
        while i < n
            invariant
                i <= n,
                n == self.cache@.len(),
                spec_lookup(self.cache@, *v) == spec_lookup(self.cache@.skip(i as int), *v),
            decreases n - i,
        {
            proof {
                assert(self.cache@.skip(i as int)[0] == self.cache@[i as int]);
                assert(self.cache@.skip(i as int).drop_first() =~= self.cache@.skip(i as int + 1));
            }
            let entry = &self.cache[i];
            if entry.0 == *v {
                return Some(entry.1);
            }
            i = i + 1;
        }
        proof {
            assert(self.cache@.skip(n as int) =~= Seq::<(Version, ProbeOutcome)>::empty());
        }
        None
    }

    /// Records the outcome of a real probe. Only a miss is ever recorded: the
    /// driving loop asks `lookup` first.
    pub fn record_outcome(&mut self, v: Version, outcome: ProbeOutcome)
        requires
            old(self).cached(v) is None,
        ensures
            final(self).target == old(self).target,
            final(self).check_command == old(self).check_command,
            final(self).cached(v) == Some(outcome),
            forall|w: Version| w != v ==> #[trigger] final(self).cached(w) == old(self).cached(w),
    {
        proof {
            assert forall|w: Version| true implies #[trigger] spec_lookup(
                self.cache@.push((v, outcome)),
                w,
            ) == (if w == v {
                Some(outcome)
            } else {
                spec_lookup(self.cache@, w)
            }) by {
                lemma_lookup_push(self.cache@, v, outcome, w);
            }
        }
        self.cache.push((v, outcome));
    }
}

/// Law: memoization is idempotent. Once a version's outcome is recorded, a
/// second probe of the same `(version, target, command)` key is answered by
/// the cache with that very outcome, and no other key's answer changes — so
/// the external check runs at most once per key within a run.
pub proof fn lemma_memoization_idempotent(
    cache: Seq<(Version, ProbeOutcome)>,
    v: Version,
    o: ProbeOutcome,
)
    requires
        spec_lookup(cache, v) is None,
    ensures
        spec_lookup(cache.push((v, o)), v) == Some(o),
        forall|w: Version|
            w != v ==> #[trigger] spec_lookup(cache.push((v, o)), w) == spec_lookup(cache, w),
{
    assert forall|w: Version| true implies #[trigger] spec_lookup(cache.push((v, o)), w) == (if w
        == v {
        Some(o)
    } else {
        spec_lookup(cache, w)
    }) by {
        lemma_lookup_push(cache, v, o, w);
    }
}

} // verus!
