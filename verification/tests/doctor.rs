use codex_updates::doctor::{
    CheckStatus, DoctorVersionInfo, LatestProbe, NpmRootCheck, VersionCacheRead,
    fetch_latest_github_release_version, fetch_latest_npm_version, npm_registry_package_url,
    plan_latest_version_probe, push_cached_version_details, record_latest_version_probe,
    record_npm_root_check, update_action_label, updates_check, updates_check_start,
};
use codex_updates::install::{InstallContext, InstallMethod, ManagedPackage, is_nexus_version};
use codex_updates::npm_registry::NpmPackageInfo;
use codex_updates::updates::LatestVersionSource;

const CLI_VERSION: &str = "0.144.3";

#[test]
fn update_action_labels_install_contexts() {
    let package = ManagedPackage::from_parts("@nexus-agent-x/codex", "0.144.3-nexus.1")
        .expect("valid managed package");
    assert_eq!(
        update_action_label(&InstallContext { method: InstallMethod::Npm }, &package, CLI_VERSION),
        "npm install -g @nexus-agent-x/codex"
    );
    assert_eq!(
        update_action_label(&InstallContext { method: InstallMethod::Pnpm }, &package, CLI_VERSION),
        "pnpm add -g @nexus-agent-x/codex"
    );
    assert_eq!(
        update_action_label(&InstallContext { method: InstallMethod::Other }, &package, CLI_VERSION),
        if is_nexus_version(CLI_VERSION) {
            "unavailable (Nexus package-manager install required)"
        } else {
            "manual or unknown"
        }
    );
}

#[test]
fn npm_registry_url_targets_managed_scope() {
    assert_eq!(
        npm_registry_package_url("@nexus-agent-x/codex").expect("valid registry URL").as_str(),
        "https://registry.npmjs.org/@nexus-agent-x%2Fcodex"
    );
}

#[test]
fn nexus_builds_outside_package_managers_have_no_update_path() {
    let package = ManagedPackage::for_codex_version("0.144.3-nexus.1");
    let brew = InstallContext { method: InstallMethod::Brew };
    assert_eq!(
        update_action_label(&brew, &package, "0.144.3-nexus.1"),
        "unavailable (Nexus package-manager install required)"
    );
    assert_eq!(plan_latest_version_probe(&brew, &package, "0.144.3-nexus.1"), None);
    assert_eq!(update_action_label(&brew, &package, "0.144.3"), "brew upgrade --cask codex");
    assert_eq!(
        plan_latest_version_probe(&brew, &package, "0.144.3"),
        Some(LatestVersionSource::HomebrewCask)
    );
    let npm = InstallContext { method: InstallMethod::Npm };
    assert_eq!(
        plan_latest_version_probe(&npm, &package, "0.144.3-nexus.1"),
        Some(LatestVersionSource::NpmRegistry("@nexus-agent-x/codex".to_string()))
    );
}

#[test]
fn github_release_tags_drop_their_prefix() {
    assert_eq!(fetch_latest_github_release_version("rust-v0.145.0"), Ok("0.145.0".to_string()));
    assert_eq!(
        fetch_latest_github_release_version("v0.145.0"),
        Err("failed to parse latest tag v0.145.0".to_string())
    );
}

#[test]
fn npm_latest_version_needs_a_latest_tag() {
    let info = NpmPackageInfo::new(vec![("latest".to_string(), " 1.2.3 ".to_string())], vec![])
        .expect("metadata");
    assert_eq!(fetch_latest_npm_version("@openai/codex", &info), Ok("1.2.3".to_string()));
    let none = NpmPackageInfo::new(vec![], vec![]).expect("metadata");
    assert_eq!(
        fetch_latest_npm_version("@openai/codex", &none),
        Err("npm package @openai/codex is missing latest dist-tag".to_string())
    );
}

#[test]
fn update_row_records_cache_npm_root_and_probe() {
    let package = ManagedPackage::for_codex_version("0.144.3");
    let npm = InstallContext { method: InstallMethod::Npm };
    let mut check = updates_check_start(true, &npm, &package, "0.144.3");
    assert_eq!(check.status, CheckStatus::Healthy);
    assert_eq!(
        check.details,
        vec!["check for update on startup: true", "update action: npm install -g @openai/codex"]
    );
    push_cached_version_details(
        &mut check.details,
        "/home/u/.codex/version.json",
        &VersionCacheRead::Parsed(DoctorVersionInfo {
            latest_version: "0.145.0".to_string(),
            source: Some("npm:@openai/codex".to_string()),
            last_checked_at: None,
            dismissed_version: Some("0.145.0".to_string()),
        }),
    );
    record_npm_root_check(&mut check, &NpmRootCheck::MissingPackageRoot, &package);
    assert_eq!(check.status, CheckStatus::Warning);
    assert_eq!(check.summary, "npm update target could not be proven");
    assert_eq!(
        check.remediation.as_deref(),
        Some("Reinstall or update @openai/codex so the JS shim provides CODEX_MANAGED_PACKAGE_ROOT.")
    );
    record_latest_version_probe(
        &mut check,
        &LatestProbe::Fetched(Ok("0.145.0".to_string())),
        &npm,
        &package,
        "0.144.3",
    );
    assert_eq!(
        check.details[2..],
        [
            "version cache: /home/u/.codex/version.json",
            "cached latest version: 0.145.0",
            "cached version source: npm:@openai/codex",
            "dismissed version: 0.145.0",
            "latest version: 0.145.0",
            "latest version status: newer version is available",
        ]
    );
}

#[test]
fn mismatched_npm_root_fails_and_failures_never_improve() {
    let package = ManagedPackage::for_codex_version("0.144.3");
    let npm = InstallContext { method: InstallMethod::Npm };
    let mut check = updates_check_start(false, &npm, &package, "0.144.3");
    record_npm_root_check(
        &mut check,
        &NpmRootCheck::Mismatch {
            running_package_root: "/a".to_string(),
            npm_package_root: "/b".to_string(),
        },
        &package,
    );
    assert_eq!(check.status, CheckStatus::Fail);
    assert_eq!(
        check.remediation.as_deref(),
        Some("Fix PATH or npm prefix so the running package root (/a) matches the npm global package root (/b).")
    );
    record_latest_version_probe(
        &mut check,
        &LatestProbe::Fetched(Err("timeout".to_string())),
        &npm,
        &package,
        "0.144.3",
    );
    assert_eq!(check.status, CheckStatus::Fail);
    assert_eq!(check.details.last().map(String::as_str), Some("latest version probe: timeout"));
    assert_eq!(CheckStatus::Healthy.max(CheckStatus::Warning), CheckStatus::Warning);
}

#[test]
fn cache_read_failures_are_reported() {
    let mut details = Vec::new();
    push_cached_version_details(&mut details, "v.json", &VersionCacheRead::Missing);
    push_cached_version_details(&mut details, "v.json", &VersionCacheRead::ParseError("bad".to_string()));
    assert_eq!(
        details,
        vec![
            "version cache: v.json",
            "version cache: missing",
            "version cache: v.json",
            "version cache parse: bad",
        ]
    );
}

#[test]
fn whole_row_carries_id_title_and_worst_status() {
    let package = ManagedPackage::for_codex_version("0.144.3");
    let npm = InstallContext { method: InstallMethod::Npm };
    let row = updates_check(
        true,
        &npm,
        &package,
        "0.144.3",
        "v.json",
        &VersionCacheRead::Missing,
        &Some(NpmRootCheck::NpmUnavailable("no npm".to_string())),
        &LatestProbe::Fetched(Ok("0.144.3".to_string())),
    );
    assert_eq!(row.id, "updates.status");
    assert_eq!(row.title, "updates");
    assert_eq!(row.status, CheckStatus::Warning);
    assert_eq!(row.summary, "npm update target could not be inspected");
    assert_eq!(row.remediation, None);
    assert_eq!(
        row.details,
        vec![
            "check for update on startup: true",
            "update action: npm install -g @openai/codex",
            "version cache: v.json",
            "version cache: missing",
            "npm root -g failed: no npm",
            "latest version: 0.144.3",
            "latest version status: current version is not older",
        ]
    );

    let healthy = updates_check(
        false,
        &npm,
        &package,
        "0.144.3",
        "v.json",
        &VersionCacheRead::Missing,
        &Some(NpmRootCheck::Match { package_root: "/r".to_string() }),
        &LatestProbe::Disabled,
    );
    assert_eq!(healthy.status, CheckStatus::Healthy);
    assert_eq!(healthy.summary, "update configuration is locally consistent");
}
