//! Determines the minimum supported toolchain version of a project: the lowest
//! released compiler version under which a user-supplied compatibility check
//! still succeeds.
//!
//! The crate holds the search core: building the candidate version set from a
//! release catalogue, the linear and bisecting search strategies that decide
//! which candidate to probe next, memoization of probe outcomes, and the
//! aggregation of results into a final verdict. Running the actual check
//! command, fetching the release index and rendering progress are left to the
//! embedding binary, which drives the search step by step.

pub mod check;
pub mod config;
pub mod edition;
pub mod errors;
pub mod outcome;
pub mod releases;
pub mod reporter;
pub mod search_methods;
pub mod semver;
pub mod target;
pub mod toolchain;

pub use check::ProbeFailReason;
pub use check::ProbeOutcome;
pub use check::Prober;
pub use config::Action;
pub use config::NewConfig;
pub use config::NewConfigBuilder;
pub use config::SearchMethod;
pub use config::SharedConfig;
pub use config::SubcommandConfig;
pub use edition::Edition;
pub use errors::CargoMSRVError;
pub use outcome::finish;
pub use outcome::fold_verdicts;
pub use outcome::report_outcome;
pub use outcome::report_show_msrv;
pub use outcome::to_compatibility;
pub use outcome::MinimalCompatibility;
pub use releases::filter_releases;
pub use releases::Release;
pub use releases::VersionFilter;
pub use reporter::NoOutput;
pub use reporter::Output;
pub use reporter::ProgressAction;
pub use search_methods::Bisect;
pub use search_methods::Linear;
pub use search_methods::SearchConclusion;
pub use search_methods::SearchRunner;
pub use semver::BareVersion;
pub use semver::Version;
pub use target::parse_default_host_triple;
pub use target::InnerTarget;
pub use target::Target;
pub use toolchain::OwnedToolchainSpec;
pub use toolchain::ToolchainSpec;
