use codex_updates::npm_registry::{
    NpmPackageDist, NpmPackageInfo, NpmPackageVersionInfo, RegistryError, latest_ready_version,
    package_url, version_info_with_dist,
};

fn version_json(version: &str) -> NpmPackageVersionInfo {
    NpmPackageVersionInfo {
        dist: Some(NpmPackageDist {
            integrity: Some(format!("sha512-{version}")),
            tarball: Some(format!("https://registry.npmjs.org/@openai/codex/-/codex-{version}.tgz")),
        }),
    }
}

fn package_info(version: &str, npm_latest: &str) -> NpmPackageInfo {
    NpmPackageInfo::new(
        vec![("latest".to_string(), npm_latest.to_string())],
        vec![(version.to_string(), version_json(version))],
    )
    .expect("valid npm package metadata")
}

#[test]
fn package_url_encodes_scoped_package_as_one_path_segment() {
    assert_eq!(
        package_url("@nexus-agent-x/codex").expect("valid registry URL").as_str(),
        "https://registry.npmjs.org/@nexus-agent-x%2Fcodex"
    );
}

#[test]
fn ready_version_comes_from_latest_dist_tag_and_requires_root_dist() {
    let latest = "1.2.3-nexus.4";
    let package_info = package_info(latest, latest);

    assert_eq!(latest_ready_version(&package_info).expect("npm package is ready"), latest);
}

#[test]
fn ready_version_rejects_latest_tag_without_version_metadata() {
    let package_info = package_info("1.2.3", "1.2.2");

    let err = latest_ready_version(&package_info)
        .expect_err("npm latest dist-tag must resolve to package metadata");
    assert!(
        err.message().contains("version 1.2.2 is missing"),
        "error should name the missing latest version: {err:?}"
    );
}

#[test]
fn ready_version_rejects_missing_root_dist() {
    let package_info = NpmPackageInfo::new(
        vec![("latest".to_string(), "1.2.3".to_string())],
        vec![("1.2.3".to_string(), NpmPackageVersionInfo { dist: None })],
    )
    .expect("valid npm package metadata");

    let err = latest_ready_version(&package_info).expect_err("root package needs dist metadata");
    assert!(
        err.message().contains("missing dist metadata"),
        "error should name missing dist metadata: {err:?}"
    );
}

#[test]
fn ready_version_trims_the_latest_tag() {
    let info = package_info("2.0.0", " 2.0.0\n");
    assert_eq!(latest_ready_version(&info).expect("ready"), "2.0.0");
}

#[test]
fn ready_version_needs_a_latest_tag() {
    let info = NpmPackageInfo::new(
        vec![("next".to_string(), "2.0.0".to_string())],
        vec![("2.0.0".to_string(), version_json("2.0.0"))],
    )
    .expect("valid metadata");
    let err = latest_ready_version(&info).expect_err("no latest tag");
    assert_eq!(err, RegistryError::MissingLatestTag);
    assert_eq!(err.message(), "npm package is missing latest dist-tag");

    let blank = package_info("2.0.0", "   ");
    assert_eq!(latest_ready_version(&blank), Err(RegistryError::MissingLatestTag));
}

#[test]
fn ready_version_needs_tarball_and_integrity() {
    let no_tarball = NpmPackageInfo::new(
        vec![("latest".to_string(), "1.0.0".to_string())],
        vec![(
            "1.0.0".to_string(),
            NpmPackageVersionInfo {
                dist: Some(NpmPackageDist { tarball: Some(String::new()), integrity: Some("x".to_string()) }),
            },
        )],
    )
    .expect("valid metadata");
    let err = latest_ready_version(&no_tarball).expect_err("empty tarball");
    assert_eq!(err.message(), "npm package version 1.0.0 is missing dist.tarball");

    let no_integrity = NpmPackageInfo::new(
        vec![("latest".to_string(), "1.0.0".to_string())],
        vec![(
            "1.0.0".to_string(),
            NpmPackageVersionInfo {
                dist: Some(NpmPackageDist { tarball: Some("t.tgz".to_string()), integrity: None }),
            },
        )],
    )
    .expect("valid metadata");
    let err = version_info_with_dist(&no_integrity, "1.0.0").expect_err("no integrity");
    assert_eq!(err.message(), "npm package version 1.0.0 is missing dist.integrity");
    assert_eq!(err, RegistryError::MissingIntegrity("1.0.0".to_string()));
}

#[test]
fn duplicate_keys_are_refused() {
    assert!(NpmPackageInfo::new(
        vec![("latest".to_string(), "1".to_string()), ("latest".to_string(), "2".to_string())],
        vec![],
    )
    .is_none());
    let info = package_info("1.0.0", "1.0.0");
    assert_eq!(info.dist_tag("latest"), Some("1.0.0"));
    assert_eq!(info.dist_tag("next"), None);
}

#[test]
fn package_url_keeps_plain_names() {
    assert_eq!(
        package_url("codex").expect("valid registry URL"),
        "https://registry.npmjs.org/codex"
    );
}
