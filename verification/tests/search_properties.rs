use std::cell::RefCell;

use cargo_msrv::filter_releases;
use cargo_msrv::fold_verdicts;
use cargo_msrv::to_compatibility;
use cargo_msrv::Action;
use cargo_msrv::Edition;
use cargo_msrv::MinimalCompatibility;
use cargo_msrv::Output;
use cargo_msrv::OwnedToolchainSpec;
use cargo_msrv::ProbeFailReason;
use cargo_msrv::ProbeOutcome;
use cargo_msrv::Prober;
use cargo_msrv::ProgressAction;
use cargo_msrv::Release;
use cargo_msrv::SearchMethod;
use cargo_msrv::SearchRunner;
use cargo_msrv::Target;
use cargo_msrv::Version;
use cargo_msrv::VersionFilter;

struct TraceReporter {
    steps: RefCell<Vec<(bool, Version)>>,
}

impl TraceReporter {
    fn new() -> Self {
        TraceReporter { steps: RefCell::new(Vec::new()) }
    }

    fn trace(&self) -> Vec<(bool, Version)> {
        self.steps.borrow().clone()
    }
}

impl Output for TraceReporter {
    fn mode(&self, _action: Action) {}
    fn set_steps(&self, _steps: u64) {}
    fn progress(&self, _action: ProgressAction) {}
    fn complete_step(&self, version: &Version, success: bool) {
        self.steps.borrow_mut().push((success, *version));
    }
    fn finish_success(&self, _mode: Action, _version: Option<&Version>) {}
    fn finish_failure(&self, _mode: Action, _cmd: Option<&str>) {}
    fn write_line(&self, _content: &str) {}
}

fn drive_search<F: Fn(&Version) -> bool>(
    method: SearchMethod,
    releases: &Vec<Release>,
    out: &impl Output,
    check: F,
    external_calls: &mut usize,
) -> MinimalCompatibility {
    let target = Target::custom("x86_64-unknown-linux-gnu".to_string());
    let mut prober = Prober::new(target.clone(), "cargo check".to_string());
    let mut search = SearchRunner::new(method, releases, out);
    while let Some(idx) = search.next_probe() {
        let version = *releases[idx].version();
        let outcome = match prober.lookup(&version) {
            Some(o) => o,
            None => {
                *external_calls += 1;
                let o = if check(&version) {
                    ProbeOutcome::Pass
                } else {
                    ProbeOutcome::Fail(ProbeFailReason::CheckFailed)
                };
                prober.record_outcome(version, o);
                o
            }
        };
        search.record(releases, outcome, out);
    }
    let conclusion = search.conclusion();
    to_compatibility(conclusion, releases, &target)
}

fn descending(versions: &[(u64, u64, u64)]) -> Vec<Release> {
    versions
        .iter()
        .map(|&(major, minor, patch)| Release::new_stable(Version::new(major, minor, patch)))
        .collect()
}

fn ceil_log2(n: usize) -> usize {
    let mut bound = 1usize;
    let mut log = 0usize;
    while bound < n {
        bound *= 2;
        log += 1;
    }
    log
}

#[test]
fn monotonic_scenario_both_strategies_agree() {
    // Candidates 1.29 through 1.32, compatibility true from 1.31 on: both
    // strategies must answer 1.31.
    let releases = descending(&[(1, 32, 0), (1, 31, 0), (1, 30, 0), (1, 29, 0)]);
    let threshold = Version::new(1, 31, 0);
    for method in [SearchMethod::Linear, SearchMethod::Bisect] {
        let reporter = TraceReporter::new();
        let mut calls = 0usize;
        let result =
            drive_search(method, &releases, &reporter, |v| !v.lt(&threshold), &mut calls);
        assert_eq!(result.to_version(), Version::new(1, 31, 0));
    }
}

#[test]
fn linear_scenario_trace_is_descending() {
    let releases = descending(&[(1, 32, 0), (1, 31, 0), (1, 30, 0), (1, 29, 0)]);
    let threshold = Version::new(1, 31, 0);
    let reporter = TraceReporter::new();
    let mut calls = 0usize;
    let result = drive_search(
        SearchMethod::Linear,
        &releases,
        &reporter,
        |v| !v.lt(&threshold),
        &mut calls,
    );
    assert_eq!(result.to_version(), Version::new(1, 31, 0));
    assert_eq!(
        reporter.trace(),
        vec![
            (true, Version::new(1, 32, 0)),
            (true, Version::new(1, 31, 0)),
            (false, Version::new(1, 30, 0)),
        ]
    );
}

#[test]
fn bisect_probes_midpoints() {
    // Over [1.32, 1.31, 1.30, 1.29] with compatibility from 1.31 on, bisection
    // probes the midpoint 1.30 (fail), then 1.31 (pass), and concludes.
    let releases = descending(&[(1, 32, 0), (1, 31, 0), (1, 30, 0), (1, 29, 0)]);
    let threshold = Version::new(1, 31, 0);
    let reporter = TraceReporter::new();
    let mut calls = 0usize;
    let result = drive_search(
        SearchMethod::Bisect,
        &releases,
        &reporter,
        |v| !v.lt(&threshold),
        &mut calls,
    );
    assert_eq!(result.to_version(), Version::new(1, 31, 0));
    assert_eq!(
        reporter.trace(),
        vec![(false, Version::new(1, 30, 0)), (true, Version::new(1, 31, 0))]
    );
    assert_eq!(calls, 2);
}

#[test]
fn no_version_satisfies_check() {
    // No version in [1.60, 1.61] passes: the verdict is that no toolchain is
    // compatible, for either strategy.
    let releases = descending(&[(1, 61, 0), (1, 60, 0)]);
    for method in [SearchMethod::Linear, SearchMethod::Bisect] {
        let reporter = TraceReporter::new();
        let mut calls = 0usize;
        let result = drive_search(method, &releases, &reporter, |_| false, &mut calls);
        assert!(matches!(result, MinimalCompatibility::NoCompatibleToolchains));
    }
}

#[test]
fn probe_count_bounds() {
    // Bisect runs at most ceil(log2 n) + 1 real probes; Linear at most n.
    for n in 1usize..=24 {
        let mut entries: Vec<(u64, u64, u64)> = Vec::new();
        for k in 0..n {
            entries.push((1, (n - k) as u64, 0));
        }
        let releases = descending(&entries);
        for boundary in 0..=n {
            // Compatibility true for the newest `boundary` candidates.
            let check = |v: &Version| -> bool {
                if boundary == 0 {
                    false
                } else {
                    let lowest_passing = Version::new(1, (n - boundary + 1) as u64, 0);
                    !v.lt(&lowest_passing)
                }
            };
            let reporter = TraceReporter::new();
            let mut bisect_calls = 0usize;
            drive_search(SearchMethod::Bisect, &releases, &reporter, check, &mut bisect_calls);
            assert!(
                bisect_calls <= ceil_log2(n) + 1,
                "bisect used {} probes over {} candidates",
                bisect_calls,
                n
            );
            let mut linear_calls = 0usize;
            drive_search(SearchMethod::Linear, &releases, &reporter, check, &mut linear_calls);
            assert!(linear_calls <= n);
        }
    }
}

#[test]
fn probe_cache_answers_repeat_probes() {
    // The same version probed twice within one run invokes the external check
    // once: a duplicated candidate is answered from the cache.
    let releases = vec![
        Release::new_stable(Version::new(1, 31, 0)),
        Release::new_stable(Version::new(1, 31, 0)),
    ];
    let reporter = TraceReporter::new();
    let mut calls = 0usize;
    let result =
        drive_search(SearchMethod::Linear, &releases, &reporter, |_| true, &mut calls);
    assert_eq!(calls, 1);
    assert_eq!(result.to_version(), Version::new(1, 31, 0));
    // The search itself still saw two completed steps.
    assert_eq!(reporter.trace().len(), 2);
}

#[test]
fn prober_memoizes_per_version() {
    let target = Target::custom("x86_64-unknown-linux-gnu".to_string());
    let mut prober = Prober::new(target, "cargo check".to_string());
    let v = Version::new(1, 40, 0);
    assert_eq!(prober.lookup(&v), None);
    prober.record_outcome(v, ProbeOutcome::Pass);
    assert_eq!(prober.lookup(&v), Some(ProbeOutcome::Pass));
    assert_eq!(prober.lookup(&Version::new(1, 41, 0)), None);
}

#[test]
fn empty_version_set_yields_no_compatible_toolchains() {
    // An empty candidate set concludes at once, with zero probes.
    let releases: Vec<Release> = Vec::new();
    for method in [SearchMethod::Linear, SearchMethod::Bisect] {
        let reporter = TraceReporter::new();
        let mut calls = 0usize;
        let result = drive_search(method, &releases, &reporter, |_| true, &mut calls);
        assert!(matches!(result, MinimalCompatibility::NoCompatibleToolchains));
        assert_eq!(calls, 0);
        assert_eq!(reporter.trace().len(), 0);
    }
}

#[test]
fn edition_pruning_does_not_change_the_verdict() {
    // A correct edition floor only shortens the search: pruned and unpruned
    // runs converge on the same verdict, under both strategies.
    let catalogue = descending(&[(1, 58, 0), (1, 57, 0), (1, 56, 1), (1, 56, 0), (1, 31, 0)]);
    let threshold = Version::new(1, 56, 1);
    let check = |v: &Version| !v.lt(&threshold);
    let unpruned = VersionFilter { min: None, max: None, stable_only: true, edition_floor: None };
    let pruned = VersionFilter {
        min: None,
        max: None,
        stable_only: true,
        edition_floor: Some(Edition::Edition2021),
    };
    for method in [SearchMethod::Linear, SearchMethod::Bisect] {
        let reporter = TraceReporter::new();
        let mut calls_full = 0usize;
        let full =
            drive_search(method, &filter_releases(&unpruned, &catalogue), &reporter, check, &mut calls_full);
        let mut calls_pruned = 0usize;
        let short =
            drive_search(method, &filter_releases(&pruned, &catalogue), &reporter, check, &mut calls_pruned);
        assert_eq!(full.to_version(), Version::new(1, 56, 1));
        assert_eq!(short.to_version(), Version::new(1, 56, 1));
    }
}

#[test]
fn workspace_fold_takes_the_maximum() {
    let target = Target::custom("x86_64-unknown-linux-gnu".to_string());
    let capable = |major: u64, minor: u64, patch: u64| MinimalCompatibility::CapableToolchain {
        toolchain: OwnedToolchainSpec::new(&Version::new(major, minor, patch), target.clone()),
    };
    let verdicts = vec![capable(1, 56, 1), capable(1, 58, 1)];
    let folded = fold_verdicts(&verdicts);
    assert_eq!(folded.to_version(), Version::new(1, 58, 1));

    let verdicts = vec![capable(1, 58, 1), capable(1, 56, 1)];
    let folded = fold_verdicts(&verdicts);
    assert_eq!(folded.to_version(), Version::new(1, 58, 1));
}

#[test]
fn workspace_fold_fails_on_any_incompatible_member() {
    let target = Target::custom("x86_64-unknown-linux-gnu".to_string());
    let verdicts = vec![
        MinimalCompatibility::CapableToolchain {
            toolchain: OwnedToolchainSpec::new(&Version::new(1, 56, 1), target),
        },
        MinimalCompatibility::NoCompatibleToolchains,
    ];
    let folded = fold_verdicts(&verdicts);
    assert!(matches!(folded, MinimalCompatibility::NoCompatibleToolchains));

    let empty: Vec<MinimalCompatibility> = Vec::new();
    assert!(matches!(fold_verdicts(&empty), MinimalCompatibility::NoCompatibleToolchains));
}

#[test]
fn single_candidate_set_is_decided_by_one_probe() {
    let releases = descending(&[(1, 45, 0)]);
    for method in [SearchMethod::Linear, SearchMethod::Bisect] {
        let reporter = TraceReporter::new();
        let mut calls = 0usize;
        let result = drive_search(method, &releases, &reporter, |_| true, &mut calls);
        assert_eq!(calls, 1);
        assert_eq!(result.to_version(), Version::new(1, 45, 0));

        let mut calls = 0usize;
        let result = drive_search(method, &releases, &reporter, |_| false, &mut calls);
        assert_eq!(calls, 1);
        assert!(matches!(result, MinimalCompatibility::NoCompatibleToolchains));
    }
}
