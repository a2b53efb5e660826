use crate::config::Action;
use crate::semver::Version;
use vstd::prelude::*;

verus! {

/// A progress event emitted around each real (non-cached) probe.
#[derive(Debug, Clone, Copy, PartialEq, Eq, Structural)]
pub enum ProgressAction {
    Installing(Version),
    Checking(Version),
    FetchingIndex,
}

/// The sink for progress and outcome events. The search core only emits
/// events through this interface; rendering them (or ignoring them) is the
/// implementor's business.
pub trait Output {
    /// Announces which top-level action is running; called once at the start.
    fn mode(&self, action: Action);

    /// The nominal total probe count, for determinate progress rendering.
    fn set_steps(&self, steps: u64);

    /// Emitted before a real probe's install and check phases.
    fn progress(&self, action: ProgressAction);

    /// Emitted after each real probe resolves, with the probed version and
    /// whether the check passed.
    fn complete_step(&self, version: &Version, success: bool);

    /// The terminal event of a successful search, at most once per search.
    fn finish_success(&self, mode: Action, version: Option<&Version>);

    /// The terminal event of a failed search, at most once per search.
    fn finish_failure(&self, mode: Action, cmd: Option<&str>);

    /// A free-form informational line.
    fn write_line(&self, content: &str);
}

/// The silent reporter: every event is dropped.
#[derive(Debug)]
pub struct NoOutput;

impl Output for NoOutput {
    fn mode(&self, _action: Action) {
    }

    fn set_steps(&self, _steps: u64) {
    }

    fn progress(&self, _action: ProgressAction) {
    }

    fn complete_step(&self, _version: &Version, _success: bool) {
    }

    fn finish_success(&self, _mode: Action, _version: Option<&Version>) {
    }

    fn finish_failure(&self, _mode: Action, _cmd: Option<&str>) {
    }

    fn write_line(&self, _content: &str) {
    }
}

} // verus!
