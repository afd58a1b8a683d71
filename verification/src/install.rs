//! How Codex was installed, and which npm package manages it.

use vstd::prelude::*;
use crate::text::{concat2, contains_str, copy_string, occurs_in, str_eq};

verus! {

/// The npm package of the official Codex distribution.
pub const OFFICIAL_CODEX_NPM_PACKAGE: &'static str = "@openai/codex";

/// The npm package of the NexusAgentX distribution.
pub const NEXUS_CODEX_NPM_PACKAGE: &'static str = "@nexus-agent-x/codex";

/// The marker that a NexusAgentX release carries in its pre-release part,
/// as in `0.144.3-nexus.1`.
pub const NEXUS_VERSION_MARKER: &'static str = "-nexus.";

/// Whether `version` is a NexusAgentX build version.
pub open spec fn nexus_version(version: Seq<char>) -> bool {
    occurs_in(NEXUS_VERSION_MARKER@, version)
}

/// Whether `version` is a NexusAgentX build version, such as
/// `0.144.3-nexus.1`: it holds the marker `-nexus.`.
pub fn is_nexus_version(version: &str) -> (r: bool)
    ensures
        r == nexus_version(version@),
{
    contains_str(version, NEXUS_VERSION_MARKER)
}

/// The npm package that distributes a Codex build of `version`.
pub open spec fn package_name_for(version: Seq<char>) -> Seq<char> {
    if nexus_version(version) {
        NEXUS_CODEX_NPM_PACKAGE@
    } else {
        OFFICIAL_CODEX_NPM_PACKAGE@
    }
}

/// Whether `name` is one of the two npm packages that distribute Codex.
pub open spec fn is_managed_package_name(name: Seq<char>) -> bool {
    name == OFFICIAL_CODEX_NPM_PACKAGE@ || name == NEXUS_CODEX_NPM_PACKAGE@
}

/// An npm package that manages a Codex installation, with the version that
/// is installed.
#[derive(Debug, Clone, PartialEq, Eq)]
pub struct ManagedPackage {
    name: String,
    version: String,
}

/// The view of a managed package: its name and its installed version.
pub struct PackageView {
    pub name: Seq<char>,
    pub version: Seq<char>,
}

impl View for ManagedPackage {
    type V = PackageView;

    closed spec fn view(&self) -> PackageView {
        PackageView { name: self.name@, version: self.version@ }
    }
}

impl ManagedPackage {
    /// The package that distributes a Codex build of `cli_version`: the
    /// NexusAgentX package for a Nexus version, else the official one.
    pub fn for_codex_version(cli_version: &str) -> (r: ManagedPackage)
        ensures
            r@.name == package_name_for(cli_version@),
            r@.version == cli_version@,
    {
        let name = if is_nexus_version(cli_version) {
            NEXUS_CODEX_NPM_PACKAGE
        } else {
            OFFICIAL_CODEX_NPM_PACKAGE
        };
        ManagedPackage { name: String::from_str(name), version: String::from_str(cli_version) }
    }

    /// A managed package from its parts; `None` unless `name` is one of the
    /// two Codex npm packages and `version` is not empty.
    pub fn from_parts(name: &str, version: &str) -> (r: Option<ManagedPackage>)
        ensures
            r is Some <==> is_managed_package_name(name@) && version@.len() > 0,
            r matches Some(p) ==> p@.name == name@ && p@.version == version@,
    {
        let known = str_eq(name, OFFICIAL_CODEX_NPM_PACKAGE) || str_eq(
            name,
            NEXUS_CODEX_NPM_PACKAGE,
        );
        if known && version.unicode_len() > 0 {
            Some(ManagedPackage { name: String::from_str(name), version: String::from_str(version) })
        } else {
            None
        }
    }

    /// The package's npm name.
    pub fn name(&self) -> (r: &str)
        ensures
            r@ == self@.name,
    {
        self.name.as_str()
    }

    /// The installed version.
    pub fn version(&self) -> (r: &str)
        ensures
            r@ == self@.version,
    {
        self.version.as_str()
    }

    /// The key under which the latest version of this package is cached:
    /// `npm:` followed by the package name.
    pub fn cache_key(&self) -> (r: String)
        ensures
            r@ == "npm:"@ + self@.name,
    {
        concat2("npm:", self.name.as_str())
    }

    /// A copy of this package.
    pub fn duplicate(&self) -> (r: ManagedPackage)
        ensures
            r@ == self@,
    {
        ManagedPackage { name: copy_string(&self.name), version: copy_string(&self.version) }
    }
}

/// The platform a standalone installation runs on.
#[derive(Debug, Clone, Copy, PartialEq, Eq)]
pub enum StandalonePlatform {
    Unix,
    Windows,
}

/// How Codex was installed.
#[derive(Debug, Clone, PartialEq, Eq)]
pub enum InstallMethod {
    /// A global npm installation.
    Npm,
    /// A global Bun installation.
    Bun,
    /// A global pnpm installation.
    Pnpm,
    /// A Homebrew cask.
    Brew,
    /// The standalone installer, with the directories it installed into.
    Standalone { platform: StandalonePlatform, release_dir: String, resources_dir: Option<String> },
    /// Anything else, including a manual installation.
    Other,
}

/// Whether `method` is one of the JavaScript package managers.
pub open spec fn is_package_manager(method: InstallMethod) -> bool {
    method is Npm || method is Bun || method is Pnpm
}

/// What is known of the running installation.
#[derive(Debug, Clone, PartialEq, Eq)]
pub struct InstallContext {
    pub method: InstallMethod,
}

} // verus!
