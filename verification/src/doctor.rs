//! The "updates" row of the doctor report: whether the update path of the
//! running installation is consistent, and whether a newer version exists.

use vstd::prelude::*;
use crate::install::{
    InstallContext, InstallMethod, ManagedPackage, is_nexus_version, is_package_manager,
    nexus_version,
};
use crate::npm_registry::{
    NPM_REGISTRY_URL, NpmPackageInfo, LATEST_DIST_TAG, UrlSegmentError, UrlSegmentFailure,
    encode_slashes, push_url_path_segment, registry_plain_name, segment_fits_url,
    url_with_path_segment,
};
use crate::text::{concat2, concat3, strip_prefix, trim_seq, trim_whitespace};
use crate::updates::{LatestVersionSource, SourceView};
use crate::versions::{is_newer, newer_than};

verus! {

/// How healthy a doctor row is; later variants are worse.
#[derive(Debug, Clone, Copy, PartialEq, Eq)]
pub enum CheckStatus {
    Healthy,
    Warning,
    Fail,
}

/// The severity of a status: 0 for `Healthy`, 1 for `Warning`, 2 for `Fail`.
pub open spec fn severity(s: CheckStatus) -> int {
    match s {
        CheckStatus::Healthy => 0,
        CheckStatus::Warning => 1,
        CheckStatus::Fail => 2,
    }
}

impl CheckStatus {
    /// The worse of two statuses.
    pub fn max(self, other: CheckStatus) -> (r: CheckStatus)
        ensures
            severity(r) == if severity(self) >= severity(other) {
                severity(self)
            } else {
                severity(other)
            },
            r == self || r == other,
    {
        let a: u8 = match self {
            CheckStatus::Healthy => 0,
            CheckStatus::Warning => 1,
            CheckStatus::Fail => 2,
        };
        let b: u8 = match other {
            CheckStatus::Healthy => 0,
            CheckStatus::Warning => 1,
            CheckStatus::Fail => 2,
        };
        if a >= b {
            self
        } else {
            other
        }
    }
}

/// The views of a list of lines.
pub open spec fn lines(v: Seq<String>) -> Seq<Seq<char>> {
    v.map_values(|s: String| s@)
}

/// The update row as it is being built.
#[derive(Debug)]
pub struct UpdatesCheck {
    /// The row's identifier in the report: `updates.status`.
    pub id: String,
    /// The row's title: `updates`.
    pub title: String,
    pub status: CheckStatus,
    pub summary: String,
    pub details: Vec<String>,
    pub remediation: Option<String>,
}

/// Whether Codex `cli_version` is a NexusAgentX build installed other than
/// through npm, Bun or pnpm, which cannot be updated.
pub open spec fn nexus_needs_package_manager(method: InstallMethod, cli_version: Seq<char>) -> bool {
    nexus_version(cli_version) && !is_package_manager(method)
}

/// Whether a NexusAgentX build is installed other than through a package
/// manager, so that no update path is available.
pub fn nexus_updates_require_package_manager(context: &InstallContext, cli_version: &str) -> (r:
    bool)
    ensures
        r == nexus_needs_package_manager(context.method, cli_version@),
        r == (nexus_version(cli_version@) && !(context.method is Npm || context.method is Bun
            || context.method is Pnpm)),
{
    is_nexus_version(cli_version) && !matches!(
        &context.method,
        InstallMethod::Npm | InstallMethod::Bun | InstallMethod::Pnpm
    )
}

/// The label that describes how the installation would be updated.
pub open spec fn action_label(
    method: InstallMethod,
    package_name: Seq<char>,
    cli_version: Seq<char>,
) -> Seq<char> {
    if nexus_needs_package_manager(method, cli_version) {
        "unavailable (Nexus package-manager install required)"@
    } else {
        match method {
            InstallMethod::Npm => "npm install -g "@ + package_name,
            InstallMethod::Bun => "bun install -g "@ + package_name,
            InstallMethod::Pnpm => "pnpm add -g "@ + package_name,
            InstallMethod::Brew => "brew upgrade --cask codex"@,
            InstallMethod::Standalone { .. } => "standalone installer"@,
            InstallMethod::Other => "manual or unknown"@,
        }
    }
}

/// Describes how the installation of `context` would be updated.
pub fn update_action_label(context: &InstallContext, package: &ManagedPackage, cli_version: &str) -> (r:
    String)
    ensures
        r@ == action_label(context.method, package@.name, cli_version@),
        context.method is Npm ==> r@ == "npm install -g "@ + package@.name,
        context.method is Bun ==> r@ == "bun install -g "@ + package@.name,
        context.method is Pnpm ==> r@ == "pnpm add -g "@ + package@.name,
        nexus_version(cli_version@) && !(context.method is Npm || context.method is Bun
            || context.method is Pnpm) ==> r@
            == "unavailable (Nexus package-manager install required)"@,
{
    if nexus_updates_require_package_manager(context, cli_version) {
        return String::from_str("unavailable (Nexus package-manager install required)");
    }
    match &context.method {
        InstallMethod::Npm => concat2("npm install -g ", package.name()),
        InstallMethod::Bun => concat2("bun install -g ", package.name()),
        InstallMethod::Pnpm => concat2("pnpm add -g ", package.name()),
        InstallMethod::Brew => String::from_str("brew upgrade --cask codex"),
        InstallMethod::Standalone { .. } => String::from_str("standalone installer"),
        InstallMethod::Other => String::from_str("manual or unknown"),
    }
}

/// The version that is installed: the package's version for the package
/// managers, else the running CLI's version.
pub fn installed_version<'a>(
    context: &InstallContext,
    package: &'a ManagedPackage,
    cli_version: &'a str,
) -> (r: &'a str)
    ensures
        r@ == if is_package_manager(context.method) {
            package@.version
        } else {
            cli_version@
        },
{
    match &context.method {
        InstallMethod::Npm | InstallMethod::Bun | InstallMethod::Pnpm => package.version(),
        InstallMethod::Brew | InstallMethod::Standalone { .. } | InstallMethod::Other => cli_version,
    }
}

/// The message given where a NexusAgentX build cannot be updated.
pub const NEXUS_PACKAGE_MANAGER_REQUIRED: &'static str = "Nexus updates require an installation managed by npm, bun, or pnpm";

/// Where the latest version for an installation made with `method` is read
/// from: the Homebrew cask for Homebrew, npm package `package_name` for the
/// package managers, and the GitHub releases otherwise.
pub open spec fn probe_source(method: InstallMethod, package_name: Seq<char>) -> SourceView {
    match method {
        InstallMethod::Brew => SourceView::HomebrewCask,
        InstallMethod::Npm | InstallMethod::Bun | InstallMethod::Pnpm => SourceView::NpmRegistry(
            package_name,
        ),
        _ => SourceView::GithubRelease,
    }
}

/// A NexusAgentX build installed through npm, Bun or pnpm can be updated:
/// the Nexus restriction applies to every other installation of such a
/// build and to no installation through a package manager, whose label is
/// the package manager's install command and whose probe reads the package
/// from the npm registry.
pub proof fn lemma_package_managers_lift_nexus_restriction(
    method: InstallMethod,
    package_name: Seq<char>,
    cli_version: Seq<char>,
)
    ensures
        (method is Npm || method is Bun || method is Pnpm) ==> !nexus_needs_package_manager(
            method,
            cli_version,
        ) && probe_source(method, package_name) == SourceView::NpmRegistry(package_name),
        method is Npm ==> action_label(method, package_name, cli_version) == "npm install -g "@
            + package_name,
        method is Bun ==> action_label(method, package_name, cli_version) == "bun install -g "@
            + package_name,
        method is Pnpm ==> action_label(method, package_name, cli_version) == "pnpm add -g "@
            + package_name,
        nexus_version(cli_version) && !(method is Npm || method is Bun || method is Pnpm) ==> (
        nexus_needs_package_manager(method, cli_version) && action_label(
            method,
            package_name,
            cli_version,
        ) == "unavailable (Nexus package-manager install required)"@),
        !nexus_version(cli_version) ==> !nexus_needs_package_manager(method, cli_version),
{
}

/// The latest version is probed from the Homebrew cask only for a Homebrew
/// installation; standalone installations, on either platform, and other
/// installations probe the GitHub releases, and the package managers probe
/// their package in the npm registry.
pub proof fn lemma_probe_source_by_method(method: InstallMethod, package_name: Seq<char>)
    ensures
        (probe_source(method, package_name) is HomebrewCask) <==> method is Brew,
        (probe_source(method, package_name) is GithubRelease) <==> (method is Standalone
            || method is Other),
        (method is Npm || method is Bun || method is Pnpm) ==> probe_source(method, package_name)
            == SourceView::NpmRegistry(package_name),
{
}

/// Where the latest version for `context` is read from; an error for a
/// NexusAgentX build that no package manager installed.
pub fn fetch_latest_version(context: &InstallContext, package: &ManagedPackage, cli_version: &str) -> (r:
    Result<LatestVersionSource, String>)
    ensures
        nexus_needs_package_manager(context.method, cli_version@) ==> (r matches Err(e) && e@
            == NEXUS_PACKAGE_MANAGER_REQUIRED@),
        !nexus_needs_package_manager(context.method, cli_version@) ==> (r matches Ok(s) && s@
            == probe_source(context.method, package@.name)),
        context.method is Npm || context.method is Bun || context.method is Pnpm ==> (r matches Ok(
            s,
        ) && s@ == SourceView::NpmRegistry(package@.name)),
        context.method is Brew && !nexus_version(cli_version@) ==> (r matches Ok(s)
            && s is HomebrewCask),
        (context.method is Standalone || context.method is Other) && !nexus_version(cli_version@)
            ==> (r matches Ok(s) && s is GithubRelease),
        r matches Ok(s) ==> ((s is HomebrewCask) <==> context.method is Brew),
{
    if nexus_updates_require_package_manager(context, cli_version) {
        return Err(String::from_str(NEXUS_PACKAGE_MANAGER_REQUIRED));
    }
    match &context.method {
        InstallMethod::Brew => Ok(LatestVersionSource::HomebrewCask),
        InstallMethod::Npm | InstallMethod::Bun | InstallMethod::Pnpm => Ok(
            LatestVersionSource::NpmRegistry(String::from_str(package.name())),
        ),
        InstallMethod::Standalone { .. } | InstallMethod::Other => Ok(
            LatestVersionSource::GithubRelease,
        ),
    }
}

/// The latest version of `package_name` from its registry dist-tags: the
/// trimmed `latest` dist-tag, which must not be blank.
pub fn fetch_latest_npm_version(package_name: &str, info: &NpmPackageInfo) -> (r: Result<
    String,
    String,
>)
    ensures
        match r {
            Ok(v) => info@.dist_tags.contains_key(LATEST_DIST_TAG@) && v@ == trim_seq(
                info@.dist_tags[LATEST_DIST_TAG@],
            ) && v@.len() > 0,
            Err(e) => (!info@.dist_tags.contains_key(LATEST_DIST_TAG@) || trim_seq(
                info@.dist_tags[LATEST_DIST_TAG@],
            ).len() == 0) && e@ == "npm package "@ + package_name@
                + " is missing latest dist-tag"@,
        },
{
    match info.dist_tag(LATEST_DIST_TAG) {
        Some(tagged) => {
            let version = trim_whitespace(tagged);
            if version.unicode_len() > 0 {
                return Ok(String::from_str(version));
            }
        },
        None => {},
    }
    Err(concat3("npm package ", package_name, " is missing latest dist-tag"))
}

/// The registry URL of `package_name`, or a message where it cannot be
/// made.
pub fn npm_registry_package_url(package_name: &str) -> (r: Result<String, String>)
    requires
        segment_fits_url(package_name),
    ensures
        match url_with_path_segment(NPM_REGISTRY_URL@, package_name@) {
            Ok(u) => r matches Ok(s) && s@ == u,
            Err(UrlSegmentFailure::InvalidBase(m)) => r matches Err(e) && e@ == m,
            Err(UrlSegmentFailure::CannotBeABase) => r matches Err(e) && e@
                == "npm registry URL cannot contain package paths"@,
        },
        registry_plain_name(package_name@) ==> (r matches Ok(u) && u@ == NPM_REGISTRY_URL@
            + encode_slashes(package_name@)),
{
    proof {
        reveal_strlit("https://registry.npmjs.org/");
    }
    match push_url_path_segment(NPM_REGISTRY_URL, package_name) {
        Ok(url) => Ok(url),
        Err(UrlSegmentError::InvalidBase(m)) => Err(m),
        Err(UrlSegmentError::CannotBeABase) => Err(
            String::from_str("npm registry URL cannot contain package paths"),
        ),
    }
}

/// The version that a GitHub release tag names: the tag without its
/// `rust-v` prefix.
pub fn fetch_latest_github_release_version(tag_name: &str) -> (r: Result<String, String>)
    ensures
        match r {
            Ok(v) => "rust-v"@.is_prefix_of(tag_name@) && v@ == tag_name@.subrange(
                6,
                tag_name@.len() as int,
            ),
            Err(e) => !"rust-v"@.is_prefix_of(tag_name@) && e@ == "failed to parse latest tag "@
                + tag_name@,
        },
{
    proof {
        reveal_strlit("rust-v");
    }
    match strip_prefix(tag_name, "rust-v") {
        Some(version) => Ok(String::from_str(version)),
        None => Err(concat2("failed to parse latest tag ", tag_name)),
    }
}

/// The text of a boolean.
pub open spec fn bool_chars(b: bool) -> Seq<char> {
    if b {
        "true"@
    } else {
        "false"@
    }
}

/// Writes a boolean as `true` or `false`.
pub fn bool_text(b: bool) -> (r: &'static str)
    ensures
        r@ == bool_chars(b),
{
    if b {
        "true"
    } else {
        "false"
    }
}

/// The identifier of the update row in the doctor report.
pub const UPDATES_CHECK_ID: &'static str = "updates.status";

/// The title of the update row.
pub const UPDATES_CHECK_TITLE: &'static str = "updates";

/// The summary of an update row with nothing to report.
pub const CONSISTENT_SUMMARY: &'static str = "update configuration is locally consistent";

/// The update row before the version cache, npm and the latest version are
/// looked at: healthy, with the startup setting and the update action.
pub fn updates_check_start(
    check_for_update_on_startup: bool,
    context: &InstallContext,
    package: &ManagedPackage,
    cli_version: &str,
) -> (r: UpdatesCheck)
    ensures
        r.id@ == UPDATES_CHECK_ID@,
        r.title@ == UPDATES_CHECK_TITLE@,
        r.status == CheckStatus::Healthy,
        r.summary@ == CONSISTENT_SUMMARY@,
        r.remediation is None,
        lines(r.details@) == seq![
            "check for update on startup: "@ + bool_chars(check_for_update_on_startup),
            "update action: "@ + action_label(context.method, package@.name, cli_version@),
        ],
{
    let mut details: Vec<String> = Vec::new();
    details.push(concat2("check for update on startup: ", bool_text(check_for_update_on_startup)));
    let label = update_action_label(context, package, cli_version);
    details.push(concat2("update action: ", label.as_str()));
    assert(lines(details@) =~= seq![
        "check for update on startup: "@ + bool_chars(check_for_update_on_startup),
        "update action: "@ + action_label(context.method, package@.name, cli_version@),
    ]);
    UpdatesCheck {
        id: String::from_str(UPDATES_CHECK_ID),
        title: String::from_str(UPDATES_CHECK_TITLE),
        status: CheckStatus::Healthy,
        summary: String::from_str(CONSISTENT_SUMMARY),
        details,
        remediation: None,
    }
}

/// The cached version record as the doctor reads it: every field but the
/// latest version may be missing.
#[derive(Debug, Clone, PartialEq, Eq)]
pub struct DoctorVersionInfo {
    pub latest_version: String,
    pub source: Option<String>,
    pub last_checked_at: Option<String>,
    pub dismissed_version: Option<String>,
}

/// What reading the version file gave.
#[derive(Debug, Clone, PartialEq, Eq)]
pub enum VersionCacheRead {
    /// The file held a record.
    Parsed(DoctorVersionInfo),
    /// The file did not parse; the parser's message.
    ParseError(String),
    /// The file does not exist.
    Missing,
    /// The file could not be read; the error's message.
    ReadError(String),
}

/// A detail line `prefix` followed by `value`, where there is a value.
pub open spec fn optional_line(prefix: Seq<char>, value: Option<String>) -> Seq<Seq<char>> {
    match value {
        Some(v) => seq![prefix + v@],
        None => Seq::empty(),
    }
}

/// The detail lines that describe the version file at `path`.
pub open spec fn cache_lines(path: Seq<char>, cache: VersionCacheRead) -> Seq<Seq<char>> {
    seq!["version cache: "@ + path] + match cache {
        VersionCacheRead::Parsed(info) => seq!["cached latest version: "@ + info.latest_version@]
            + optional_line("cached version source: "@, info.source) + optional_line(
            "last checked at: "@,
            info.last_checked_at,
        ) + optional_line("dismissed version: "@, info.dismissed_version),
        VersionCacheRead::ParseError(e) => seq!["version cache parse: "@ + e@],
        VersionCacheRead::Missing => seq!["version cache: missing"@],
        VersionCacheRead::ReadError(e) => seq!["version cache read: "@ + e@],
    }
}

/// Appends `prefix` followed by `value`, where there is a value.
fn push_optional_line(details: &mut Vec<String>, prefix: &str, value: &Option<String>)
    ensures
        lines(final(details)@) == lines(old(details)@) + optional_line(prefix@, *value),
{
    match value {
        Some(v) => {
            details.push(concat2(prefix, v.as_str()));
        },
        None => {},
    }
    assert(lines(details@) =~= lines(old(details)@) + optional_line(prefix@, *value));
}

/// Appends the lines that describe the version file at `version_file`,
/// given what reading it gave.
pub fn push_cached_version_details(
    details: &mut Vec<String>,
    version_file: &str,
    cache: &VersionCacheRead,
)
    ensures
        lines(final(details)@) == lines(old(details)@) + cache_lines(version_file@, *cache),
{
    details.push(concat2("version cache: ", version_file));
    let ghost after_path = lines(details@);
    match cache {
        VersionCacheRead::Parsed(info) => {
            details.push(concat2("cached latest version: ", info.latest_version.as_str()));
            push_optional_line(details, "cached version source: ", &info.source);
            push_optional_line(details, "last checked at: ", &info.last_checked_at);
            push_optional_line(details, "dismissed version: ", &info.dismissed_version);
        },
        VersionCacheRead::ParseError(e) => {
            details.push(concat2("version cache parse: ", e.as_str()));
        },
        VersionCacheRead::Missing => {
            details.push(String::from_str("version cache: missing"));
        },
        VersionCacheRead::ReadError(e) => {
            details.push(concat2("version cache read: ", e.as_str()));
        },
    }
    assert(lines(details@) =~= lines(old(details)@) + cache_lines(version_file@, *cache));
}

/// Whether npm would update the package root that launched Codex.
#[derive(Debug, Clone, PartialEq, Eq)]
pub enum NpmRootCheck {
    /// npm's global package root is the running one.
    Match { package_root: String },
    /// npm would update another package root.
    Mismatch { running_package_root: String, npm_package_root: String },
    /// The launcher did not say which package root it runs from.
    MissingPackageRoot,
    /// `npm root -g` failed; its message.
    NpmUnavailable(String),
}

/// The remediation for a package-root mismatch.
pub open spec fn mismatch_remediation(running: Seq<char>, npm: Seq<char>) -> Seq<char> {
    "Fix PATH or npm prefix so the running package root ("@ + running
        + ") matches the npm global package root ("@ + npm + ")."@
}

/// The remediation where the package root is unknown.
pub open spec fn missing_root_remediation(package_name: Seq<char>) -> Seq<char> {
    "Reinstall or update "@ + package_name
        + " so the JS shim provides CODEX_MANAGED_PACKAGE_ROOT."@
}

/// The worse of `a` and `b`.
pub open spec fn worse(a: CheckStatus, b: CheckStatus) -> CheckStatus {
    if severity(a) >= severity(b) {
        a
    } else {
        b
    }
}

/// Records what npm's global root says of an npm-managed launch: a mismatch
/// fails the row, an unknown or uninspectable root makes it at least a
/// warning.
pub fn record_npm_root_check(check: &mut UpdatesCheck, root: &NpmRootCheck, package: &ManagedPackage)
    ensures
        final(check).id == old(check).id,
        final(check).title == old(check).title,
        severity(final(check).status) >= severity(old(check).status),
        match *root {
            NpmRootCheck::Match { package_root } => final(check).status == old(check).status
                && final(check).summary@ == old(check).summary@ && opt_lines(final(check).remediation)
                == opt_lines(old(check).remediation) && lines(final(check).details@) == lines(
                old(check).details@,
            ).push("npm update target: "@ + package_root@),
            NpmRootCheck::Mismatch { running_package_root, npm_package_root } => final(check).status
                == CheckStatus::Fail && final(check).summary@
                == "update would target a different npm install"@ && opt_lines(
                final(check).remediation,
            ) == Some(mismatch_remediation(running_package_root@, npm_package_root@)) && lines(
                final(check).details@,
            ) == lines(old(check).details@).push(
                "running package root: "@ + running_package_root@,
            ).push("npm package root: "@ + npm_package_root@),
            NpmRootCheck::MissingPackageRoot => final(check).status == worse(
                old(check).status,
                CheckStatus::Warning,
            ) && final(check).summary@ == "npm update target could not be proven"@ && opt_lines(
                final(check).remediation,
            ) == Some(missing_root_remediation(package@.name)) && lines(final(check).details@)
                == lines(old(check).details@),
            NpmRootCheck::NpmUnavailable(error) => final(check).status == worse(
                old(check).status,
                CheckStatus::Warning,
            ) && final(check).summary@ == "npm update target could not be inspected"@ && opt_lines(
                final(check).remediation,
            ) == opt_lines(old(check).remediation) && lines(final(check).details@) == lines(
                old(check).details@,
            ).push("npm root -g failed: "@ + error@),
        },
{
    match root {
        NpmRootCheck::Match { package_root } => {
            check.details.push(concat2("npm update target: ", package_root.as_str()));
        },
        NpmRootCheck::Mismatch { running_package_root, npm_package_root } => {
            check.status = CheckStatus::Fail;
            check.summary = String::from_str("update would target a different npm install");
            check.details.push(concat2("running package root: ", running_package_root.as_str()));
            check.details.push(concat2("npm package root: ", npm_package_root.as_str()));
            let mut remediation = concat3(
                "Fix PATH or npm prefix so the running package root (",
                running_package_root.as_str(),
                ") matches the npm global package root (",
            );
            remediation.append(npm_package_root.as_str());
            remediation.append(").");
            check.remediation = Some(remediation);
        },
        NpmRootCheck::MissingPackageRoot => {
            check.status = check.status.max(CheckStatus::Warning);
            check.summary = String::from_str("npm update target could not be proven");
            check.remediation = Some(
                concat3(
                    "Reinstall or update ",
                    package.name(),
                    " so the JS shim provides CODEX_MANAGED_PACKAGE_ROOT.",
                ),
            );
        },
        NpmRootCheck::NpmUnavailable(error) => {
            check.status = check.status.max(CheckStatus::Warning);
            check.summary = String::from_str("npm update target could not be inspected");
            check.details.push(concat2("npm root -g failed: ", error.as_str()));
        },
    }
}

/// The view of an optional string.
pub open spec fn opt_lines(s: Option<String>) -> Option<Seq<char>> {
    match s {
        Some(v) => Some(v@),
        None => None,
    }
}

/// Where the latest version will be read from for the update row; `None`
/// where the probe is disabled because a NexusAgentX build can only be
/// updated through a package manager.
pub fn plan_latest_version_probe(
    context: &InstallContext,
    package: &ManagedPackage,
    cli_version: &str,
) -> (r: Option<LatestVersionSource>)
    ensures
        r is None <==> nexus_needs_package_manager(context.method, cli_version@),
        r matches Some(s) ==> s@ == probe_source(context.method, package@.name),
        context.method is Npm || context.method is Bun || context.method is Pnpm ==> (r matches Some(
            s,
        ) && s@ == SourceView::NpmRegistry(package@.name)),
        (context.method is Standalone || context.method is Other) && !nexus_version(cli_version@)
            ==> (r matches Some(s) && s is GithubRelease),
        r matches Some(s) ==> ((s is HomebrewCask) <==> context.method is Brew),
{
    if nexus_updates_require_package_manager(context, cli_version) {
        return None;
    }
    match fetch_latest_version(context, package, cli_version) {
        Ok(source) => Some(source),
        Err(_) => None,
    }
}

/// What the latest-version probe of the update row gave.
#[derive(Debug, PartialEq, Eq)]
pub enum LatestProbe {
    /// The probe is disabled for this installation.
    Disabled,
    /// The latest version, or why it could not be read.
    Fetched(Result<String, String>),
}

/// The line that records a disabled probe.
pub const PROBE_DISABLED_LINE: &'static str = "latest version probe: disabled for Nexus installs not managed by npm, bun, or pnpm";

/// The detail lines that record `probe`, for installed version `installed`.
pub open spec fn probe_lines(probe: LatestProbe, installed: Seq<char>) -> Seq<Seq<char>> {
    match probe {
        LatestProbe::Disabled => seq![PROBE_DISABLED_LINE@],
        LatestProbe::Fetched(Ok(latest)) => seq![
            "latest version: "@ + latest@,
            if newer_than(latest@, installed) == Some(true) {
                "latest version status: newer version is available"@
            } else {
                "latest version status: current version is not older"@
            },
        ],
        LatestProbe::Fetched(Err(e)) => seq!["latest version probe: "@ + e@],
    }
}

/// Records the latest-version probe: its lines, and at least a warning
/// where it failed. The installed version is the package's for the
/// package managers, else the running CLI's.
pub fn record_latest_version_probe(
    check: &mut UpdatesCheck,
    probe: &LatestProbe,
    context: &InstallContext,
    package: &ManagedPackage,
    cli_version: &str,
)
    ensures
        final(check).id == old(check).id,
        final(check).title == old(check).title,
        severity(final(check).status) >= severity(old(check).status),
        final(check).status == if probe matches LatestProbe::Fetched(Err(_)) {
            worse(old(check).status, CheckStatus::Warning)
        } else {
            old(check).status
        },
        final(check).summary@ == old(check).summary@,
        opt_lines(final(check).remediation) == opt_lines(old(check).remediation),
        lines(final(check).details@) == lines(old(check).details@) + probe_lines(
            *probe,
            if is_package_manager(context.method) {
                package@.version
            } else {
                cli_version@
            },
        ),
{
    let ghost before = lines(check.details@);
    match probe {
        LatestProbe::Disabled => {
            check.details.push(String::from_str(PROBE_DISABLED_LINE));
        },
        LatestProbe::Fetched(Ok(latest)) => {
            check.details.push(concat2("latest version: ", latest.as_str()));
            let current = installed_version(context, package, cli_version);
            if is_newer(latest.as_str(), current) == Some(true) {
                check.details.push(
                    String::from_str("latest version status: newer version is available"),
                );
            } else {
                check.details.push(
                    String::from_str("latest version status: current version is not older"),
                );
            }
        },
        LatestProbe::Fetched(Err(e)) => {
            check.status = check.status.max(CheckStatus::Warning);
            check.details.push(concat2("latest version probe: ", e.as_str()));
        },
    }
    assert(lines(check.details@) =~= before + probe_lines(
        *probe,
        if is_package_manager(context.method) {
            package@.version
        } else {
            cli_version@
        },
    ));
}

/// The detail lines that the npm-root inspection adds, if there was one.
pub open spec fn npm_root_lines(root: Option<NpmRootCheck>) -> Seq<Seq<char>> {
    match root {
        Some(NpmRootCheck::Match { package_root }) => seq!["npm update target: "@ + package_root@],
        Some(NpmRootCheck::Mismatch { running_package_root, npm_package_root }) => seq![
            "running package root: "@ + running_package_root@,
            "npm package root: "@ + npm_package_root@,
        ],
        Some(NpmRootCheck::NpmUnavailable(error)) => seq!["npm root -g failed: "@ + error@],
        _ => Seq::empty(),
    }
}

/// The status of the whole update row: it fails where npm would update
/// another package root; it warns where the npm root could not be proven or
/// inspected, or the latest version could not be read; else it is healthy.
pub open spec fn row_status(root: Option<NpmRootCheck>, probe: LatestProbe) -> CheckStatus {
    if root matches Some(NpmRootCheck::Mismatch { .. }) {
        CheckStatus::Fail
    } else if root matches Some(NpmRootCheck::MissingPackageRoot) || root matches Some(
        NpmRootCheck::NpmUnavailable(_),
    ) || probe matches LatestProbe::Fetched(Err(_)) {
        CheckStatus::Warning
    } else {
        CheckStatus::Healthy
    }
}

/// The summary of the whole update row.
pub open spec fn row_summary(root: Option<NpmRootCheck>) -> Seq<char> {
    match root {
        Some(NpmRootCheck::Mismatch { .. }) => "update would target a different npm install"@,
        Some(NpmRootCheck::MissingPackageRoot) => "npm update target could not be proven"@,
        Some(NpmRootCheck::NpmUnavailable(_)) => "npm update target could not be inspected"@,
        _ => CONSISTENT_SUMMARY@,
    }
}

/// The remediation of the whole update row, for a package named
/// `package_name`.
pub open spec fn row_remediation(root: Option<NpmRootCheck>, package_name: Seq<char>) -> Option<
    Seq<char>,
> {
    match root {
        Some(NpmRootCheck::Mismatch { running_package_root, npm_package_root }) => Some(
            mismatch_remediation(running_package_root@, npm_package_root@),
        ),
        Some(NpmRootCheck::MissingPackageRoot) => Some(missing_root_remediation(package_name)),
        _ => None,
    }
}

/// Builds the update-health row for the installation of `context`, running
/// Codex `cli_version` managed by `package`, from what the outside reads
/// gave: `cache` is the read of the version file at `version_file`,
/// `npm_root` the inspection of npm's global root (present where npm
/// launched the process), and `probe` the latest-version probe that
/// [`plan_latest_version_probe`] called for.
///
/// A failure to read the latest version only degrades the row to a
/// warning; a package-root mismatch fails it.
pub fn updates_check(
    check_for_update_on_startup: bool,
    context: &InstallContext,
    package: &ManagedPackage,
    cli_version: &str,
    version_file: &str,
    cache: &VersionCacheRead,
    npm_root: &Option<NpmRootCheck>,
    probe: &LatestProbe,
) -> (r: UpdatesCheck)
    ensures
        r.id@ == UPDATES_CHECK_ID@,
        r.title@ == UPDATES_CHECK_TITLE@,
        r.status == row_status(*npm_root, *probe),
        (*npm_root matches Some(NpmRootCheck::Mismatch { .. })) ==> r.status == CheckStatus::Fail,
        !(*npm_root matches Some(NpmRootCheck::Mismatch { .. })) && (*probe matches LatestProbe::Fetched(
            Err(_),
        )) ==> r.status == CheckStatus::Warning,
        (*npm_root is None || (*npm_root matches Some(NpmRootCheck::Match { .. }))) && !(*probe matches LatestProbe::Fetched(
            Err(_),
        )) ==> r.status == CheckStatus::Healthy,
        r.summary@ == row_summary(*npm_root),
        opt_lines(r.remediation) == row_remediation(*npm_root, package@.name),
        lines(r.details@) == seq![
            "check for update on startup: "@ + bool_chars(check_for_update_on_startup),
            "update action: "@ + action_label(context.method, package@.name, cli_version@),
        ] + cache_lines(version_file@, *cache) + npm_root_lines(*npm_root) + probe_lines(
            *probe,
            if is_package_manager(context.method) {
                package@.version
            } else {
                cli_version@
            },
        ),
{
    let mut check = updates_check_start(check_for_update_on_startup, context, package, cli_version);
    push_cached_version_details(&mut check.details, version_file, cache);
    if let Some(root) = npm_root {
        record_npm_root_check(&mut check, root, package);
    }
    record_latest_version_probe(&mut check, probe, context, package, cli_version);
    proof {
        reveal_strlit("update configuration is locally consistent");
    }
    check
}

} // verus!
