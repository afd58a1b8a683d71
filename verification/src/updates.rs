//! The decisions around the cached "latest version" record: which source
//! it must come from, when to refresh it, and which upgrade to announce.

use vstd::prelude::*;
use crate::install::ManagedPackage;
use crate::text::{copy_opt_string, copy_string, str_eq};
use crate::update_action::{UpdateAction, UpdateKind, kind_of, package_of};
use crate::versions::{is_newer, is_source_build, is_source_build_version, newer_than, parsed_version};

verus! {

/// The cache source of versions read from the official GitHub releases.
pub const GITHUB_RELEASE_SOURCE: &'static str = "github:openai/codex";

/// The cache source of versions read from the Homebrew cask.
pub const HOMEBREW_CASK_SOURCE: &'static str = "homebrew:codex";

/// How long a cached latest version stays fresh: twenty hours, in
/// nanoseconds.
pub const REFRESH_INTERVAL_NANOS: i128 = 72_000_000_000_000i128;

/// The cached record of the latest version, as stored in the version file.
#[derive(Debug, Clone, PartialEq, Eq)]
pub struct VersionInfo {
    /// The latest version that the source reported.
    pub latest_version: String,
    /// Where the latest version was read from; absent in records written
    /// before sources were recorded, which came from the GitHub releases.
    pub source: Option<String>,
    /// When the source was last asked, in nanoseconds since the Unix epoch.
    pub last_checked_at: i128,
    /// A version whose announcement the user dismissed.
    pub dismissed_version: Option<String>,
}

/// Whether a record whose source is `cached` may be used for `source`.
pub open spec fn source_matches(cached: Option<Seq<char>>, source: Seq<char>) -> bool {
    match cached {
        Some(c) => c == source,
        None => source == GITHUB_RELEASE_SOURCE@,
    }
}

/// The view of an optional string.
pub open spec fn opt_chars(s: Option<String>) -> Option<Seq<char>> {
    match s {
        Some(v) => Some(v@),
        None => None,
    }
}

/// Whether the cached `info` was read from `source`: a record without a
/// source only serves the GitHub releases.
pub fn cache_matches_source(info: &VersionInfo, source: &str) -> (r: bool)
    ensures
        r == source_matches(opt_chars(info.source), source@),
{
    match &info.source {
        Some(cached_source) => str_eq(cached_source.as_str(), source),
        None => str_eq(source, GITHUB_RELEASE_SOURCE),
    }
}

/// A cached record that was read from the GitHub releases is never used for
/// another source, and a record that names its source only serves that
/// source.
pub proof fn lemma_cache_is_scoped_to_its_source(cached: Option<Seq<char>>, source: Seq<char>)
    ensures
        cached is None ==> (source_matches(cached, source) <==> source == GITHUB_RELEASE_SOURCE@),
        cached matches Some(c) ==> (source_matches(cached, source) <==> c == source),
{
}

/// What an update check compares against: the action that would perform
/// the update, the source of the latest version, and the version that is
/// installed.
#[derive(Debug, Clone, PartialEq, Eq)]
pub struct UpdateCheck {
    pub action: Option<UpdateAction>,
    pub source: String,
    pub current_version: String,
}

/// The source of the latest version and the installed version, for an
/// installation that `action` updates, running Codex `cli_version`.
pub open spec fn check_source(action: Option<UpdateAction>, cli_version: Seq<char>) -> (
    Seq<char>,
    Seq<char>,
) {
    match action {
        Some(a) => match package_of(a) {
            Some(p) => ("npm:"@ + p.name, p.version),
            None => if kind_of(a) == UpdateKind::Brew {
                (HOMEBREW_CASK_SOURCE@, cli_version)
            } else {
                (GITHUB_RELEASE_SOURCE@, cli_version)
            },
        },
        None => (GITHUB_RELEASE_SOURCE@, cli_version),
    }
}

/// The update check for an installation that `action` updates, running
/// Codex `cli_version`; none for a NexusAgentX build that no action
/// updates.
pub fn current_update_check(action: Option<UpdateAction>, cli_version: &str) -> (r: Option<
    UpdateCheck,
>)
    ensures
        r is None <==> action is None && crate::install::nexus_version(cli_version@),
        r matches Some(c) ==> c.action == action && c.source@ == check_source(
            action,
            cli_version@,
        ).0 && c.current_version@ == check_source(action, cli_version@).1,
{
    if action.is_none() && crate::install::is_nexus_version(cli_version) {
        return None;
    }
    let (source, current_version) = match &action {
        Some(a) => match a.managed_package() {
            Some(package) => (package.cache_key(), String::from_str(package.version())),
            None => match a {
                UpdateAction::BrewUpgrade => (
                    String::from_str(HOMEBREW_CASK_SOURCE),
                    String::from_str(cli_version),
                ),
                _ => (String::from_str(GITHUB_RELEASE_SOURCE), String::from_str(cli_version)),
            },
        },
        None => (String::from_str(GITHUB_RELEASE_SOURCE), String::from_str(cli_version)),
    };
    Some(UpdateCheck { action, source, current_version })
}

/// Whether two optional actions are of the same kind and update the same
/// package.
pub open spec fn same_action(a: Option<UpdateAction>, b: Option<UpdateAction>) -> bool {
    match (a, b) {
        (Some(x), Some(y)) => kind_of(x) == kind_of(y) && package_of(x) == package_of(y),
        (None, None) => true,
        _ => false,
    }
}

impl UpdateCheck {
    /// A copy of this check.
    pub fn duplicate(&self) -> (r: UpdateCheck)
        ensures
            r.source@ == self.source@,
            r.current_version@ == self.current_version@,
            same_action(r.action, self.action),
    {
        let action = match &self.action {
            Some(a) => Some(a.duplicate()),
            None => None,
        };
        UpdateCheck {
            action,
            source: copy_string(&self.source),
            current_version: copy_string(&self.current_version),
        }
    }
}

/// Whether a record checked at `last_checked_at` is due for a refresh at
/// `now`: it was checked more than twenty hours before.
pub open spec fn is_stale(last_checked_at: int, now: int) -> bool {
    last_checked_at < now - REFRESH_INTERVAL_NANOS
}

/// A cached record is refreshed once more than twenty hours have passed
/// since it was checked, and not before.
pub proof fn lemma_refresh_after_twenty_hours(last_checked_at: int, now: int)
    ensures
        REFRESH_INTERVAL_NANOS == 20 * 60 * 60 * 1_000_000_000,
        is_stale(last_checked_at, now) <==> now - last_checked_at > 72_000_000_000_000,
{
}

/// Whether update checks run at all: they are enabled at startup and Codex
/// is a release build, not a build from source.
pub fn update_checks_enabled(check_for_update_on_startup: bool, cli_version: &str) -> (r: bool)
    ensures
        r == (check_for_update_on_startup && !is_source_build(cli_version@)),
        r == (check_for_update_on_startup && !(parsed_version(cli_version@) is Some
            && parsed_version(cli_version@)->0.major == 0 && parsed_version(cli_version@)->0.minor
            == 0 && parsed_version(cli_version@)->0.patch == 0)),
{
    check_for_update_on_startup && !is_source_build_version(cli_version)
}

/// What an update check at startup decides: whether to refresh the cached
/// record in the background, for which check, and which newer version to
/// announce now.
#[derive(Debug)]
pub struct UpgradeCheck {
    pub refresh: Option<UpdateCheck>,
    pub upgrade_version: Option<String>,
}

/// The cached record, where it was read from `source`.
pub open spec fn usable_cache(cached: Option<VersionInfo>, source: Seq<char>) -> Option<
    VersionInfo,
> {
    match cached {
        Some(info) => if source_matches(opt_chars(info.source), source) {
            Some(info)
        } else {
            None
        },
        None => None,
    }
}

/// A cached record is only used for the source it was read from: one that
/// names its source serves exactly that source, one without a source serves
/// only the GitHub releases, and a usable record is the cached one.
pub proof fn lemma_usable_cache_is_scoped(cached: Option<VersionInfo>, source: Seq<char>)
    ensures
        cached is None ==> usable_cache(cached, source) is None,
        cached is Some && cached->0.source is Some ==> (usable_cache(cached, source) is Some <==> cached->0.source->0@
            == source),
        cached is Some && cached->0.source is None ==> (usable_cache(cached, source) is Some <==> source
            == GITHUB_RELEASE_SOURCE@),
        usable_cache(cached, source) is Some ==> usable_cache(cached, source) == cached,
{
}

/// Decides, at startup, what the update check does: with updates enabled
/// on a release build that some source can check (`update_check`), it asks
/// for a background refresh when no usable cached record exists or the
/// record is older than twenty hours, and it announces the cached latest
/// version when that is newer than the installed one. A cached record
/// that another source wrote is never used.
pub fn get_upgrade_version(
    check_for_update_on_startup: bool,
    cli_version: &str,
    update_check: Option<UpdateCheck>,
    cached: Option<VersionInfo>,
    now: i128,
) -> (r: UpgradeCheck)
    ensures
        !check_for_update_on_startup || is_source_build(cli_version@) || update_check is None
            ==> r.refresh is None && r.upgrade_version is None,
        update_check matches Some(c) ==> (check_for_update_on_startup && !is_source_build(
            cli_version@,
        ) ==> {
            let info = usable_cache(cached, c.source@);
            &&& (r.refresh is Some <==> (info is None || is_stale(
                info->0.last_checked_at as int,
                now as int,
            )))
            &&& (r.refresh matches Some(rc) ==> rc.source@ == c.source@ && rc.current_version@
                == c.current_version@ && same_action(rc.action, c.action))
            &&& (r.upgrade_version is Some <==> (info matches Some(i) && newer_than(
                i.latest_version@,
                c.current_version@,
            ) == Some(true)))
            &&& (r.upgrade_version matches Some(v) ==> info matches Some(i) && v@
                == i.latest_version@)
        }),
        check_for_update_on_startup && update_check is Some && parsed_version(cli_version@) is Some
            && (parsed_version(cli_version@)->0.major != 0 || parsed_version(cli_version@)->0.minor
            != 0 || parsed_version(cli_version@)->0.patch != 0) ==> {
            let c = update_check->0;
            let info = usable_cache(cached, c.source@);
            &&& (info is None ==> r.refresh is Some)
            &&& (info is Some && newer_than(info->0.latest_version@, c.current_version@) == Some(
                true,
            ) ==> r.upgrade_version is Some)
        },
{
    if !update_checks_enabled(check_for_update_on_startup, cli_version) {
        return UpgradeCheck { refresh: None, upgrade_version: None };
    }
    let check = match update_check {
        Some(check) => check,
        None => return UpgradeCheck { refresh: None, upgrade_version: None },
    };
    let info = match cached {
        Some(info) => if cache_matches_source(&info, check.source.as_str()) {
            Some(info)
        } else {
            None
        },
        None => None,
    };
    let stale = match &info {
        None => true,
        Some(info) => {
            if now < i128::MIN + REFRESH_INTERVAL_NANOS {
                false
            } else {
                info.last_checked_at < now - REFRESH_INTERVAL_NANOS
            }
        },
    };
    let refresh = if stale {
        Some(check.duplicate())
    } else {
        None
    };
    let upgrade_version = match info {
        Some(info) => {
            if is_newer(info.latest_version.as_str(), check.current_version.as_str()) == Some(
                true,
            ) {
                Some(info.latest_version)
            } else {
                None
            }
        },
        None => None,
    };
    UpgradeCheck { refresh, upgrade_version }
}

/// The version to announce in a popup: the upgrade that the startup check
/// found, unless the cached record says the user dismissed exactly that
/// version; nothing with updates disabled or on a source build.
pub open spec fn popup_version(
    check_for_update_on_startup: bool,
    cli_version: Seq<char>,
    upgrade_version: Option<Seq<char>>,
    dismissed_version: Option<Seq<char>>,
) -> Option<Seq<char>> {
    if !check_for_update_on_startup || is_source_build(cli_version) {
        None
    } else {
        match upgrade_version {
            Some(latest) => if dismissed_version == Some(latest) {
                None
            } else {
                Some(latest)
            },
            None => None,
        }
    }
}

/// Returns the latest version to show in a popup, if it should be shown.
/// This respects the user's dismissal choice for the current latest
/// version: `upgrade_version` is what [`get_upgrade_version`] announced and
/// `cached` is the record in the version file.
pub fn get_upgrade_version_for_popup(
    check_for_update_on_startup: bool,
    cli_version: &str,
    upgrade_version: Option<String>,
    cached: Option<VersionInfo>,
) -> (r: Option<String>)
    ensures
        opt_chars(r) == popup_version(
            check_for_update_on_startup,
            cli_version@,
            opt_chars(upgrade_version),
            match cached {
                Some(info) => opt_chars(info.dismissed_version),
                None => None,
            },
        ),
        r matches Some(v) ==> !(cached matches Some(info) && opt_chars(info.dismissed_version)
            == Some(v@)),
        r matches Some(v) ==> (upgrade_version matches Some(u) && v@ == u@),
        check_for_update_on_startup && parsed_version(cli_version@) is Some && (parsed_version(
            cli_version@,
        )->0.major != 0 || parsed_version(cli_version@)->0.minor != 0 || parsed_version(
            cli_version@,
        )->0.patch != 0) && upgrade_version is Some && !(cached is Some && opt_chars(
            cached->0.dismissed_version,
        ) == Some(upgrade_version->0@)) ==> r is Some,
{
    if !update_checks_enabled(check_for_update_on_startup, cli_version) {
        return None;
    }
    let latest = match upgrade_version {
        Some(latest) => latest,
        None => return None,
    };
    if let Some(info) = &cached {
        if let Some(dismissed) = &info.dismissed_version {
            if str_eq(dismissed.as_str(), latest.as_str()) {
                return None;
            }
        }
    }
    Some(latest)
}

/// Where the latest version comes from.
#[derive(Debug, Clone, PartialEq, Eq)]
pub enum LatestVersionSource {
    /// The Homebrew cask's version.
    HomebrewCask,
    /// The `latest` dist-tag of this npm package.
    NpmRegistry(String),
    /// The tag of the latest GitHub release.
    GithubRelease,
}

/// The view of a [`LatestVersionSource`].
pub enum SourceView {
    HomebrewCask,
    NpmRegistry(Seq<char>),
    GithubRelease,
}

impl View for LatestVersionSource {
    type V = SourceView;

    open spec fn view(&self) -> SourceView {
        match self {
            LatestVersionSource::HomebrewCask => SourceView::HomebrewCask,
            LatestVersionSource::NpmRegistry(p) => SourceView::NpmRegistry(p@),
            LatestVersionSource::GithubRelease => SourceView::GithubRelease,
        }
    }
}

/// Where the latest version for an installation that `action` updates is
/// read from: the cask for Homebrew, the managed package for the package
/// managers, and the GitHub releases otherwise.
pub open spec fn refresh_source(action: Option<UpdateAction>) -> SourceView {
    match action {
        Some(a) => match package_of(a) {
            Some(p) => SourceView::NpmRegistry(p.name),
            None => if kind_of(a) == UpdateKind::Brew {
                SourceView::HomebrewCask
            } else {
                SourceView::GithubRelease
            },
        },
        None => SourceView::GithubRelease,
    }
}

/// Where a background refresh for `action` reads the latest version.
pub fn latest_version_source(action: &Option<UpdateAction>) -> (r: LatestVersionSource)
    ensures
        r@ == refresh_source(*action),
        (r is HomebrewCask) <==> (*action matches Some(UpdateAction::BrewUpgrade)),
        (r is GithubRelease) <==> (*action is None || (*action matches Some(
            UpdateAction::StandaloneUnix,
        )) || (*action matches Some(UpdateAction::StandaloneWindows))),
        *action matches Some(UpdateAction::NpmGlobalLatest(p)) ==> r@ == SourceView::NpmRegistry(
            p@.name,
        ),
        *action matches Some(UpdateAction::BunGlobalLatest(p)) ==> r@ == SourceView::NpmRegistry(
            p@.name,
        ),
        *action matches Some(UpdateAction::PnpmGlobalLatest(p)) ==> r@ == SourceView::NpmRegistry(
            p@.name,
        ),
{
    match action {
        Some(a) => match a.managed_package() {
            Some(package) => LatestVersionSource::NpmRegistry(String::from_str(package.name())),
            None => match a {
                UpdateAction::BrewUpgrade => LatestVersionSource::HomebrewCask,
                _ => LatestVersionSource::GithubRelease,
            },
        },
        None => LatestVersionSource::GithubRelease,
    }
}

/// The record to store after a refresh read `latest_version` from
/// `source` at `now`: a dismissal is kept only from a previous record of
/// the same source.
pub fn next_version_info(
    latest_version: String,
    source: String,
    now: i128,
    previous: Option<VersionInfo>,
) -> (r: VersionInfo)
    ensures
        r.latest_version@ == latest_version@,
        opt_chars(r.source) == Some(source@),
        r.last_checked_at == now,
        opt_chars(r.dismissed_version) == match usable_cache(previous, source@) {
            Some(info) => opt_chars(info.dismissed_version),
            None => None,
        },
{
    let dismissed_version = match &previous {
        Some(info) => if cache_matches_source(info, source.as_str()) {
            copy_opt_string(&info.dismissed_version)
        } else {
            None
        },
        None => None,
    };
    VersionInfo { latest_version, source: Some(source), last_checked_at: now, dismissed_version }
}

/// A background refresh reads the Homebrew cask only for an installation
/// that `brew upgrade` updates; the standalone installers, on Unix and on
/// Windows, and installations that no action updates read the GitHub
/// releases; the package managers read their own package. The cache source
/// of the update check follows the same split.
pub proof fn lemma_refresh_source_by_action(action: Option<UpdateAction>, cli_version: Seq<char>)
    ensures
        (refresh_source(action) is HomebrewCask) <==> (action matches Some(
            UpdateAction::BrewUpgrade,
        )),
        (refresh_source(action) is GithubRelease) <==> (action is None || (action matches Some(
            UpdateAction::StandaloneUnix,
        )) || (action matches Some(UpdateAction::StandaloneWindows))),
        (action matches Some(UpdateAction::BrewUpgrade)) ==> check_source(action, cli_version).0
            == HOMEBREW_CASK_SOURCE@,
        (action is None || (action matches Some(UpdateAction::StandaloneUnix)) || (action matches Some(
            UpdateAction::StandaloneWindows,
        ))) ==> check_source(action, cli_version) == (GITHUB_RELEASE_SOURCE@, cli_version),
        action matches Some(UpdateAction::NpmGlobalLatest(p)) ==> refresh_source(action)
            == SourceView::NpmRegistry(p@.name) && check_source(action, cli_version) == (
            "npm:"@ + p@.name,
            p@.version,
        ),
        action matches Some(UpdateAction::BunGlobalLatest(p)) ==> refresh_source(action)
            == SourceView::NpmRegistry(p@.name) && check_source(action, cli_version) == (
            "npm:"@ + p@.name,
            p@.version,
        ),
        action matches Some(UpdateAction::PnpmGlobalLatest(p)) ==> refresh_source(action)
            == SourceView::NpmRegistry(p@.name) && check_source(action, cli_version) == (
            "npm:"@ + p@.name,
            p@.version,
        ),
{
}

/// Update checks run for every release build: with checks enabled at
/// startup, a version that parses with a major, minor or patch number other
/// than zero is no source build, and the newer version found for it is
/// announced unless the user dismissed exactly that version.
pub proof fn lemma_releases_check_for_updates(
    cli_version: Seq<char>,
    latest: Seq<char>,
    dismissed: Option<Seq<char>>,
)
    requires
        parsed_version(cli_version) is Some,
        parsed_version(cli_version)->0.major != 0 || parsed_version(cli_version)->0.minor != 0
            || parsed_version(cli_version)->0.patch != 0,
    ensures
        !is_source_build(cli_version),
        dismissed != Some(latest) ==> popup_version(true, cli_version, Some(latest), dismissed)
            == Some(latest),
        popup_version(true, cli_version, Some(latest), Some(latest)) is None,
        popup_version(false, cli_version, Some(latest), dismissed) is None,
{
}

/// A NexusAgentX build that has an update action checks the NexusAgentX npm
/// package for new versions, against the installed NexusAgentX version, and
/// never the upstream package or the GitHub releases.
pub proof fn lemma_nexus_checks_use_nexus_package(
    r: Option<UpdateAction>,
    method: crate::install::InstallMethod,
    cli_version: Seq<char>,
)
    requires
        crate::install::nexus_version(cli_version),
        crate::update_action::is_offered_action(
            r,
            method,
            crate::install::PackageView {
                name: crate::install::package_name_for(cli_version),
                version: cli_version,
            },
            true,
        ),
        r is Some,
    ensures
        check_source(r, cli_version).0 == "npm:"@ + crate::install::NEXUS_CODEX_NPM_PACKAGE@,
        check_source(r, cli_version).1 == cli_version,
        refresh_source(r) == SourceView::NpmRegistry(crate::install::NEXUS_CODEX_NPM_PACKAGE@),
{
}

} // verus!
