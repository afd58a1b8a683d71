use codex_updates::install::{ManagedPackage, NEXUS_CODEX_NPM_PACKAGE};
use codex_updates::update_action::UpdateAction;
use codex_updates::updates::{
    GITHUB_RELEASE_SOURCE, HOMEBREW_CASK_SOURCE, LatestVersionSource, VersionInfo,
    cache_matches_source, current_update_check, get_upgrade_version, get_upgrade_version_for_popup,
    latest_version_source, next_version_info, update_checks_enabled,
};

const HOUR: i128 = 3_600_000_000_000;

fn cached_info(source: Option<&str>) -> VersionInfo {
    VersionInfo {
        latest_version: "0.145.0-nexus.1".to_string(),
        source: source.map(str::to_string),
        last_checked_at: 1_000 * HOUR,
        dismissed_version: None,
    }
}

#[test]
fn nexus_cache_never_reuses_legacy_official_version() {
    let legacy_info = cached_info(None);

    assert!(cache_matches_source(&legacy_info, GITHUB_RELEASE_SOURCE));
    assert!(!cache_matches_source(&legacy_info, "npm:@nexus-agent-x/codex"));
}

#[test]
fn version_cache_is_scoped_to_exact_package_source() {
    let nexus_info = cached_info(Some("npm:@nexus-agent-x/codex"));

    assert!(cache_matches_source(&nexus_info, "npm:@nexus-agent-x/codex"));
    assert!(!cache_matches_source(&nexus_info, "npm:@openai/codex"));
}

fn nexus_action() -> UpdateAction {
    UpdateAction::NpmGlobalLatest(
        ManagedPackage::from_parts(NEXUS_CODEX_NPM_PACKAGE, "0.144.3-nexus.1").expect("package"),
    )
}

#[test]
fn update_check_sources_follow_the_action() {
    let npm = current_update_check(Some(nexus_action()), "0.144.3-nexus.1").expect("check");
    assert_eq!(npm.source, "npm:@nexus-agent-x/codex");
    assert_eq!(npm.current_version, "0.144.3-nexus.1");

    let brew = current_update_check(Some(UpdateAction::BrewUpgrade), "0.144.3").expect("check");
    assert_eq!(brew.source, HOMEBREW_CASK_SOURCE);
    assert_eq!(brew.current_version, "0.144.3");

    let none = current_update_check(None, "0.144.3").expect("check");
    assert_eq!(none.source, GITHUB_RELEASE_SOURCE);
    assert!(current_update_check(None, "0.144.3-nexus.1").is_none());
}

#[test]
fn upgrade_uses_fresh_matching_cache_without_refresh() {
    let check = current_update_check(Some(nexus_action()), "0.144.3-nexus.1");
    let now = 1_010 * HOUR;
    let outcome = get_upgrade_version(
        true,
        "0.144.3-nexus.1",
        check,
        Some(cached_info(Some("npm:@nexus-agent-x/codex"))),
        now,
    );
    assert!(outcome.refresh.is_none());
    assert_eq!(outcome.upgrade_version.as_deref(), Some("0.145.0-nexus.1"));
}

#[test]
fn upgrade_refreshes_stale_or_foreign_cache() {
    let check = current_update_check(Some(nexus_action()), "0.144.3-nexus.1");
    let stale = get_upgrade_version(
        true,
        "0.144.3-nexus.1",
        check.clone(),
        Some(cached_info(Some("npm:@nexus-agent-x/codex"))),
        1_021 * HOUR,
    );
    assert!(stale.refresh.is_some());
    assert_eq!(stale.upgrade_version.as_deref(), Some("0.145.0-nexus.1"));

    let foreign = get_upgrade_version(
        true,
        "0.144.3-nexus.1",
        check,
        Some(cached_info(None)),
        1_001 * HOUR,
    );
    let refresh = foreign.refresh.expect("refresh");
    assert_eq!(refresh.source, "npm:@nexus-agent-x/codex");
    assert_eq!(foreign.upgrade_version, None);
}

#[test]
fn upgrade_is_off_when_disabled_or_source_build() {
    let check = current_update_check(None, "0.0.0");
    let outcome = get_upgrade_version(true, "0.0.0", check, Some(cached_info(None)), 0);
    assert!(outcome.refresh.is_none() && outcome.upgrade_version.is_none());
    let check = current_update_check(None, "0.144.3");
    let outcome = get_upgrade_version(false, "0.144.3", check, Some(cached_info(None)), 0);
    assert!(outcome.refresh.is_none() && outcome.upgrade_version.is_none());
}

#[test]
fn popup_respects_dismissal() {
    let mut info = cached_info(None);
    info.dismissed_version = Some("0.145.0".to_string());
    assert_eq!(
        get_upgrade_version_for_popup(true, "0.144.3", Some("0.145.0".to_string()), Some(info.clone())),
        None
    );
    assert_eq!(
        get_upgrade_version_for_popup(true, "0.144.3", Some("0.146.0".to_string()), Some(info.clone())),
        Some("0.146.0".to_string())
    );
    assert_eq!(
        get_upgrade_version_for_popup(false, "0.144.3", Some("0.146.0".to_string()), Some(info)),
        None
    );
    assert_eq!(get_upgrade_version_for_popup(true, "0.144.3", None, None), None);
}

#[test]
fn refresh_keeps_dismissal_only_for_same_source() {
    let mut previous = cached_info(Some(HOMEBREW_CASK_SOURCE));
    previous.dismissed_version = Some("0.145.0".to_string());
    let same = next_version_info(
        "0.146.0".to_string(),
        HOMEBREW_CASK_SOURCE.to_string(),
        7,
        Some(previous.clone()),
    );
    assert_eq!(same.dismissed_version.as_deref(), Some("0.145.0"));
    assert_eq!(same.source.as_deref(), Some(HOMEBREW_CASK_SOURCE));
    assert_eq!(same.last_checked_at, 7);
    let other = next_version_info(
        "0.146.0".to_string(),
        GITHUB_RELEASE_SOURCE.to_string(),
        7,
        Some(previous),
    );
    assert_eq!(other.dismissed_version, None);
}

#[test]
fn refresh_source_follows_action() {
    assert_eq!(
        latest_version_source(&Some(nexus_action())),
        LatestVersionSource::NpmRegistry(NEXUS_CODEX_NPM_PACKAGE.to_string())
    );
    assert_eq!(latest_version_source(&Some(UpdateAction::BrewUpgrade)), LatestVersionSource::HomebrewCask);
    assert_eq!(latest_version_source(&Some(UpdateAction::StandaloneUnix)), LatestVersionSource::GithubRelease);
    assert_eq!(latest_version_source(&None), LatestVersionSource::GithubRelease);
}

#[test]
fn update_checks_need_the_setting_and_a_release_build() {
    assert!(update_checks_enabled(true, "0.144.3-nexus.1"));
    assert!(!update_checks_enabled(false, "0.144.3"));
    assert!(!update_checks_enabled(true, "0.0.0"));
}
