use crate::target::Target;
use vstd::prelude::*;

verus! {

/// The main task the tool has been asked to perform.
#[derive(Debug, Clone, Copy, PartialEq, Eq, Structural)]
pub enum Action {
    /// Determine the minimum supported toolchain version for a project.
    Find,
    /// List the minimum versions as declared by package authors.
    List,
    /// Verify a declared minimum version.
    Verify,
    /// Show the minimum version declared in the package manifest.
    Show,
}

impl Action {
    /// The action's stable command name.
    pub fn as_str(&self) -> (s: &'static str)
        ensures
            *self == Action::Find ==> s@ == "determine-msrv"@,
            *self == Action::List ==> s@ == "list-msrv"@,
            *self == Action::Verify ==> s@ == "verify-msrv"@,
            *self == Action::Show ==> s@ == "show-msrv"@,
    {
        match self {
            Action::Find => "determine-msrv",
            Action::List => "list-msrv",
            Action::Verify => "verify-msrv",
            Action::Show => "show-msrv",
        }
    }
}

impl Default for Action {
    /// The default action is to determine the minimum supported version.
    fn default() -> (r: Self)
        ensures
            r == Action::Find,
    {
        Action::Find
    }
}

/// Which search strategy drives the probes: the descending linear scan, or
/// bisection over the candidate range.
#[derive(Debug, Clone, Copy, PartialEq, Eq, Structural)]
pub enum SearchMethod {
    Linear,
    Bisect,
}

/// Configuration shared by every subcommand: the action to run and the
/// platform target the probes address.
pub struct SharedConfig {
    pub action: Action,
    pub target: Target,
}

impl SharedConfig {
    pub fn new(action: Action) -> (c: Self)
        ensures
            c.action == action,
            c.target == Target::platform_default_spec(),
    {
        SharedConfig { action, target: Target::platform_default() }
    }
}

/// Extra configuration of a single subcommand, where it has any.
pub enum SubcommandConfig {
    NoConfig,
}

/// The full configuration of one invocation.
pub struct NewConfig {
    pub shared: SharedConfig,
    pub subcommand_config: SubcommandConfig,
}

impl NewConfig {
    pub fn new(action: Action) -> (c: Self)
        ensures
            c.shared.action == action,
            c.shared.target == Target::platform_default_spec(),
            c.subcommand_config is NoConfig,
    {
        NewConfig { shared: SharedConfig::new(action), subcommand_config: SubcommandConfig::NoConfig }
    }
}

/// Builds a configuration up from the default for an action.
pub struct NewConfigBuilder {
    pub inner: NewConfig,
}

impl NewConfigBuilder {
    pub fn new(action: Action) -> (b: Self)
        ensures
            b.inner.shared.action == action,
            b.inner.shared.target == Target::platform_default_spec(),
            b.inner.subcommand_config is NoConfig,
    {
        NewConfigBuilder { inner: NewConfig::new(action) }
    }
}

} // verus!
