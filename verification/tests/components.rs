use cargo_msrv::filter_releases;
use cargo_msrv::finish;
use cargo_msrv::parse_default_host_triple;
use cargo_msrv::report_show_msrv;
use cargo_msrv::Action;
use cargo_msrv::BareVersion;
use cargo_msrv::CargoMSRVError;
use cargo_msrv::Edition;
use cargo_msrv::MinimalCompatibility;
use cargo_msrv::NewConfigBuilder;
use cargo_msrv::NoOutput;
use cargo_msrv::OwnedToolchainSpec;
use cargo_msrv::Release;
use cargo_msrv::SubcommandConfig;
use cargo_msrv::Target;
use cargo_msrv::ToolchainSpec;
use cargo_msrv::Version;
use cargo_msrv::VersionFilter;

#[test]
fn version_ordering() {
    let a = Version::new(1, 29, 2);
    let b = Version::new(1, 30, 0);
    let c = Version::new(2, 0, 0);
    assert!(a.lt(&b));
    assert!(b.lt(&c));
    assert!(a.le(&a));
    assert!(!b.lt(&a));
    assert!(a.le(&c));
    assert_eq!(a, Version::new(1, 29, 2));
}

#[test]
fn bare_version_reads_as_full_version() {
    assert_eq!(BareVersion::TwoComponents(1, 56).to_semver_version(), Version::new(1, 56, 0));
    assert_eq!(
        BareVersion::ThreeComponents(1, 56, 1).to_semver_version(),
        Version::new(1, 56, 1)
    );
}

#[test]
fn edition_first_versions() {
    assert_eq!(Edition::Edition2015.first_version(), Version::new(1, 0, 0));
    assert_eq!(Edition::Edition2018.first_version(), Version::new(1, 31, 0));
    assert_eq!(Edition::Edition2021.first_version(), Version::new(1, 56, 0));
}

#[test]
fn filter_applies_bounds_and_stability() {
    let catalogue = vec![
        Release::new_stable(Version::new(1, 40, 0)),
        Release::new_unstable(Version::new(1, 39, 1)),
        Release::new_stable(Version::new(1, 39, 0)),
        Release::new_stable(Version::new(1, 38, 0)),
        Release::new_stable(Version::new(1, 37, 0)),
    ];
    let filter = VersionFilter {
        min: Some(Version::new(1, 38, 0)),
        max: Some(Version::new(1, 39, 1)),
        stable_only: true,
        edition_floor: None,
    };
    let kept = filter_releases(&filter, &catalogue);
    assert_eq!(
        kept,
        vec![
            Release::new_stable(Version::new(1, 39, 0)),
            Release::new_stable(Version::new(1, 38, 0)),
        ]
    );
}

#[test]
fn filter_edition_floor_prunes_older_releases() {
    let catalogue = vec![
        Release::new_stable(Version::new(1, 32, 0)),
        Release::new_stable(Version::new(1, 31, 0)),
        Release::new_stable(Version::new(1, 30, 0)),
    ];
    let filter = VersionFilter {
        min: None,
        max: None,
        stable_only: true,
        edition_floor: Some(Edition::Edition2018),
    };
    let kept = filter_releases(&filter, &catalogue);
    assert_eq!(
        kept,
        vec![
            Release::new_stable(Version::new(1, 32, 0)),
            Release::new_stable(Version::new(1, 31, 0)),
        ]
    );
}

#[test]
fn filter_may_keep_nothing() {
    let catalogue = vec![Release::new_stable(Version::new(1, 20, 0))];
    let filter = VersionFilter {
        min: Some(Version::new(1, 21, 0)),
        max: None,
        stable_only: true,
        edition_floor: None,
    };
    assert_eq!(filter_releases(&filter, &catalogue), vec![]);
}

#[test]
fn host_triple_is_third_token_of_first_line() {
    let stdout = b"Default host: x86_64-unknown-linux-gnu\nrustup home: /root/.rustup".to_vec();
    let parsed = parse_default_host_triple(&stdout).unwrap();
    assert_eq!(parsed, b"x86_64-unknown-linux-gnu".to_vec());

    let padded = b"  one\ttwo  three-token\n".to_vec();
    assert_eq!(parse_default_host_triple(&padded).unwrap(), b"three-token".to_vec());
}

#[test]
fn host_triple_missing_is_a_hard_error() {
    let empty = Vec::new();
    assert_eq!(
        parse_default_host_triple(&empty),
        Err(CargoMSRVError::DefaultHostTripleNotFound)
    );
    let two_tokens = b"only two\nthird token here".to_vec();
    assert_eq!(
        parse_default_host_triple(&two_tokens),
        Err(CargoMSRVError::DefaultHostTripleNotFound)
    );
}

#[test]
fn toolchain_spec_renders_once_and_is_cached() {
    let version = Version::new(1, 31, 0);
    let target = Target::custom("x86_64-unknown-linux-gnu".to_string());
    let mut spec = ToolchainSpec::new(&version, &target);
    assert_eq!(spec.version(), &Version::new(1, 31, 0));
    let first = spec.spec();
    assert_eq!(first, "1.31.0-x86_64-unknown-linux-gnu");
    let second = spec.spec();
    assert_eq!(second, "1.31.0-x86_64-unknown-linux-gnu");

    let mut owned = spec.to_owned();
    assert_eq!(owned.spec(), "1.31.0-x86_64-unknown-linux-gnu");
    assert_eq!(owned.version(), &Version::new(1, 31, 0));
}

#[test]
fn owned_toolchain_spec_renders_lazily() {
    let mut owned = OwnedToolchainSpec::new(
        &Version::new(0, 9, 12),
        Target::custom("aarch64-apple-darwin".to_string()),
    );
    assert_eq!(owned.spec(), "0.9.12-aarch64-apple-darwin");
}

#[test]
fn finish_classifies_the_verdict() {
    let out = NoOutput;
    let capable = MinimalCompatibility::CapableToolchain {
        toolchain: OwnedToolchainSpec::new(
            &Version::new(1, 31, 0),
            Target::custom("x86_64-unknown-linux-gnu".to_string()),
        ),
    };
    assert!(finish(&capable, "cargo check", &out).is_ok());

    let exhausted = MinimalCompatibility::NoCompatibleToolchains;
    let err = finish(&exhausted, "cargo check", &out).unwrap_err();
    assert_eq!(
        err,
        CargoMSRVError::UnableToFindAnyGoodVersion { command: "cargo check".to_string() }
    );
}

#[test]
fn show_reports_declared_msrv() {
    let out = NoOutput;
    assert!(report_show_msrv(Some(&BareVersion::TwoComponents(1, 56)), &out));
    assert!(!report_show_msrv(None, &out));
}

#[test]
fn target_keeps_an_explicit_triple() {
    let custom = Target::custom("x86_64-pc-windows-msvc".to_string());
    assert_eq!(custom.target(), Some(&"x86_64-pc-windows-msvc".to_string()));
    let default = Target::platform_default();
    assert_eq!(default.target(), None);
    let cloned = custom.clone();
    assert_eq!(cloned.target(), Some(&"x86_64-pc-windows-msvc".to_string()));
}

#[test]
fn action_names_and_default() {
    assert_eq!(Action::Find.as_str(), "determine-msrv");
    assert_eq!(Action::List.as_str(), "list-msrv");
    assert_eq!(Action::Verify.as_str(), "verify-msrv");
    assert_eq!(Action::Show.as_str(), "show-msrv");
    assert_eq!(Action::default(), Action::Find);
}

#[test]
fn config_builder_starts_from_the_action() {
    let builder = NewConfigBuilder::new(Action::Verify);
    assert_eq!(builder.inner.shared.action, Action::Verify);
    assert_eq!(builder.inner.shared.target.target(), None);
    assert!(matches!(builder.inner.subcommand_config, SubcommandConfig::NoConfig));
}
