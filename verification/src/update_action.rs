//! The update command that matches how Codex was installed.

use vstd::prelude::*;
use crate::install::{
    InstallContext, InstallMethod, ManagedPackage, PackageView, StandalonePlatform,
    NEXUS_CODEX_NPM_PACKAGE, OFFICIAL_CODEX_NPM_PACKAGE, is_nexus_version, is_package_manager, nexus_version,
    package_name_for,
};
use crate::text::{concat3, join_spaced, join_with_spaces, str_eq};

verus! {

/// Where the official distribution publishes its release notes.
pub const OFFICIAL_RELEASE_NOTES_URL: &'static str = "https://github.com/openai/codex/releases/latest";

/// Where the NexusAgentX distribution publishes its release notes.
pub const NEXUS_RELEASE_NOTES_URL: &'static str = "https://github.com/NexusAgentX/codex/releases/latest";

/// The shell command that reruns the standalone installer on Unix.
pub const STANDALONE_UNIX_SCRIPT: &'static str = "curl -fsSL https://chatgpt.com/codex/install.sh | CODEX_NON_INTERACTIVE=1 sh";

/// The PowerShell command that reruns the standalone installer on Windows.
pub const STANDALONE_WINDOWS_SCRIPT: &'static str = "$env:CODEX_NON_INTERACTIVE=1; irm https://chatgpt.com/codex/install.ps1 | iex";

/// Update action the CLI should perform after the TUI exits.
#[derive(Debug, Clone, PartialEq, Eq)]
pub enum UpdateAction {
    /// Update the package that launched Codex via npm.
    NpmGlobalLatest(ManagedPackage),
    /// Update the package that launched Codex via Bun.
    BunGlobalLatest(ManagedPackage),
    /// Update the package that launched Codex via pnpm.
    PnpmGlobalLatest(ManagedPackage),
    /// Update via `brew upgrade codex`.
    BrewUpgrade,
    /// Update by rerunning the standalone installer script with `sh`.
    StandaloneUnix,
    /// Update by rerunning the standalone installer script with PowerShell.
    StandaloneWindows,
}

/// The kind of an update action, without its package.
pub enum UpdateKind {
    Npm,
    Bun,
    Pnpm,
    Brew,
    StandaloneUnix,
    StandaloneWindows,
}

/// The kind of `a`.
pub open spec fn kind_of(a: UpdateAction) -> UpdateKind {
    match a {
        UpdateAction::NpmGlobalLatest(_) => UpdateKind::Npm,
        UpdateAction::BunGlobalLatest(_) => UpdateKind::Bun,
        UpdateAction::PnpmGlobalLatest(_) => UpdateKind::Pnpm,
        UpdateAction::BrewUpgrade => UpdateKind::Brew,
        UpdateAction::StandaloneUnix => UpdateKind::StandaloneUnix,
        UpdateAction::StandaloneWindows => UpdateKind::StandaloneWindows,
    }
}

/// The package that `a` updates, for the package-manager actions.
pub open spec fn package_of(a: UpdateAction) -> Option<PackageView> {
    match a {
        UpdateAction::NpmGlobalLatest(p) => Some(p@),
        UpdateAction::BunGlobalLatest(p) => Some(p@),
        UpdateAction::PnpmGlobalLatest(p) => Some(p@),
        _ => None,
    }
}

/// The kind of update offered for an installation made with `method`; a
/// NexusAgentX build is only updated through a package manager.
pub open spec fn offered_kind(method: InstallMethod, nexus_build: bool) -> Option<UpdateKind> {
    match method {
        InstallMethod::Npm => Some(UpdateKind::Npm),
        InstallMethod::Bun => Some(UpdateKind::Bun),
        InstallMethod::Pnpm => Some(UpdateKind::Pnpm),
        InstallMethod::Brew => if nexus_build {
            None
        } else {
            Some(UpdateKind::Brew)
        },
        InstallMethod::Standalone { platform, .. } => if nexus_build {
            None
        } else {
            match platform {
                StandalonePlatform::Unix => Some(UpdateKind::StandaloneUnix),
                StandalonePlatform::Windows => Some(UpdateKind::StandaloneWindows),
            }
        },
        InstallMethod::Other => None,
    }
}

/// Whether `r` is the action offered for `method`, carrying a package whose
/// view is `package` where the action has one.
pub open spec fn is_offered_action(
    r: Option<UpdateAction>,
    method: InstallMethod,
    package: PackageView,
    nexus_build: bool,
) -> bool {
    match r {
        Some(a) => offered_kind(method, nexus_build) == Some(kind_of(a)) && (package_of(a) matches Some(
            p,
        ) ==> p == package),
        None => offered_kind(method, nexus_build) is None,
    }
}

/// The program and the arguments that perform `a`.
pub open spec fn update_command(a: UpdateAction) -> (Seq<char>, Seq<Seq<char>>) {
    match a {
        UpdateAction::NpmGlobalLatest(p) => ("npm"@, seq!["install"@, "-g"@, p@.name]),
        UpdateAction::BunGlobalLatest(p) => ("bun"@, seq!["install"@, "-g"@, p@.name]),
        UpdateAction::PnpmGlobalLatest(p) => ("pnpm"@, seq!["add"@, "-g"@, p@.name]),
        UpdateAction::BrewUpgrade => ("brew"@, seq!["upgrade"@, "codex"@]),
        UpdateAction::StandaloneUnix => ("sh"@, seq!["-c"@, STANDALONE_UNIX_SCRIPT@]),
        UpdateAction::StandaloneWindows => (
            "powershell"@,
            seq!["-ExecutionPolicy"@, "Bypass"@, "-c"@, STANDALONE_WINDOWS_SCRIPT@],
        ),
    }
}

/// The program followed by its arguments.
pub open spec fn command_words(a: UpdateAction) -> Seq<Seq<char>> {
    seq![update_command(a).0] + update_command(a).1
}

/// The release notes that match `a`: the NexusAgentX ones where `a`
/// updates the NexusAgentX package.
pub open spec fn release_notes_for(a: UpdateAction) -> Seq<char> {
    if package_of(a) matches Some(p) && p.name == NEXUS_CODEX_NPM_PACKAGE@ {
        NEXUS_RELEASE_NOTES_URL@
    } else {
        OFFICIAL_RELEASE_NOTES_URL@
    }
}

/// The views of a list of words.
pub open spec fn word_views(words: Seq<&str>) -> Seq<Seq<char>> {
    words.map_values(|w: &str| w@)
}

/// Characters that `shlex` leaves unquoted: ASCII letters and digits and
/// `+ - . / : @ ] _`.
pub open spec fn shell_plain_char(c: char) -> bool {
    ||| ('a' <= c && c <= 'z')
    ||| ('A' <= c && c <= 'Z')
    ||| ('0' <= c && c <= '9')
    ||| c == '+' || c == '-' || c == '.' || c == '/' || c == ':' || c == '@' || c == ']' || c
        == '_'
}

/// A word that `shlex` passes through unchanged: not empty, and made of
/// characters it leaves unquoted.
pub open spec fn shell_plain_word(w: Seq<char>) -> bool {
    w.len() > 0 && forall|j: int| 0 <= j < w.len() ==> shell_plain_char(#[trigger] w[j])
}

/// Whether every word of `ws` passes through `shlex` unchanged.
pub open spec fn all_plain_words(ws: Seq<Seq<char>>) -> bool {
    forall|i: int| 0 <= i < ws.len() ==> shell_plain_word(#[trigger] ws[i])
}

/// Whether some word of `ws` holds a nul character.
pub open spec fn some_word_holds_nul(ws: Seq<Seq<char>>) -> bool {
    exists|i: int| 0 <= i < ws.len() && #[trigger] ws[i].contains('\0')
}

/// What `shlex::try_join` makes of a list of words: `None` where it fails.
pub uninterp spec fn shlex_join(words: Seq<Seq<char>>) -> Option<Seq<char>>;

/// Calls `shlex::try_join`, which quotes each word where needed and joins
/// the words with single spaces. The contract names the result and states
/// what the crate's source shows: the only error is a nul character in a
/// word, and words made only of the characters it never quotes are
/// joined unchanged. How other words are quoted is left to the name.
#[verifier::external_body]
fn shlex_try_join(words: &Vec<&str>) -> (r: Option<String>)
    ensures
        r matches Some(s) ==> shlex_join(word_views(words@)) == Some(s@),
        r is None ==> shlex_join(word_views(words@)) is None,
        r is None <==> some_word_holds_nul(word_views(words@)),
        all_plain_words(word_views(words@)) ==> r is Some,
        r matches Some(s) ==> (all_plain_words(word_views(words@)) ==> s@ == join_spaced(
            word_views(words@),
        )),
{
    shlex::try_join(words.iter().copied()).ok()
}

impl UpdateAction {
    /// The action for an installation of `context`, updating `package`;
    /// `nexus_build` restricts a NexusAgentX build to package-manager
    /// updates.
    pub fn from_install_context_with_package(
        context: &InstallContext,
        package: ManagedPackage,
        nexus_build: bool,
    ) -> (r: Option<UpdateAction>)
        ensures
            is_offered_action(r, context.method, package@, nexus_build),
            context.method is Npm ==> (r matches Some(UpdateAction::NpmGlobalLatest(p)) && p@
                == package@),
            context.method is Bun ==> (r matches Some(UpdateAction::BunGlobalLatest(p)) && p@
                == package@),
            context.method is Pnpm ==> (r matches Some(UpdateAction::PnpmGlobalLatest(p)) && p@
                == package@),
            context.method is Brew ==> r == (if nexus_build {
                None
            } else {
                Some(UpdateAction::BrewUpgrade)
            }),
            (context.method matches InstallMethod::Standalone {
                platform: StandalonePlatform::Unix,
                ..
            }) ==> r == (if nexus_build {
                None
            } else {
                Some(UpdateAction::StandaloneUnix)
            }),
            (context.method matches InstallMethod::Standalone {
                platform: StandalonePlatform::Windows,
                ..
            }) ==> r == (if nexus_build {
                None
            } else {
                Some(UpdateAction::StandaloneWindows)
            }),
            context.method is Other ==> r is None,
    {
        match &context.method {
            InstallMethod::Npm => Some(UpdateAction::NpmGlobalLatest(package)),
            InstallMethod::Bun => Some(UpdateAction::BunGlobalLatest(package)),
            InstallMethod::Pnpm => Some(UpdateAction::PnpmGlobalLatest(package)),
            InstallMethod::Brew => {
                if nexus_build {
                    None
                } else {
                    Some(UpdateAction::BrewUpgrade)
                }
            },
            InstallMethod::Standalone { platform, .. } => {
                if nexus_build {
                    None
                } else {
                    match platform {
                        StandalonePlatform::Unix => Some(UpdateAction::StandaloneUnix),
                        StandalonePlatform::Windows => Some(UpdateAction::StandaloneWindows),
                    }
                }
            },
            InstallMethod::Other => None,
        }
    }

    /// The action for an installation of `context` running Codex
    /// `cli_version`: it updates the package that distributes that version.
    pub fn from_install_context_for_version(context: &InstallContext, cli_version: &str) -> (r:
        Option<UpdateAction>)
        ensures
            is_offered_action(
                r,
                context.method,
                PackageView { name: package_name_for(cli_version@), version: cli_version@ },
                nexus_version(cli_version@),
            ),
    {
        let package = ManagedPackage::for_codex_version(cli_version);
        Self::from_install_context_with_package(context, package, is_nexus_version(cli_version))
    }

    /// Returns the program and the list of command-line arguments for
    /// invoking the update.
    pub fn command_args(&self) -> (r: (&'static str, Vec<&str>))
        ensures
            r.0@ == update_command(*self).0,
            word_views(r.1@) == update_command(*self).1,
    {
        let r: (&'static str, Vec<&str>) = match self {
            UpdateAction::NpmGlobalLatest(package) => ("npm", vec!["install", "-g", package.name()]),
            UpdateAction::BunGlobalLatest(package) => ("bun", vec!["install", "-g", package.name()]),
            UpdateAction::PnpmGlobalLatest(package) => ("pnpm", vec!["add", "-g", package.name()]),
            UpdateAction::BrewUpgrade => ("brew", vec!["upgrade", "codex"]),
            UpdateAction::StandaloneUnix => ("sh", vec!["-c", STANDALONE_UNIX_SCRIPT]),
            UpdateAction::StandaloneWindows => (
                "powershell",
                vec!["-ExecutionPolicy", "Bypass", "-c", STANDALONE_WINDOWS_SCRIPT],
            ),
        };
        assert(word_views(r.1@) =~= update_command(*self).1);
        r
    }

    /// Returns the command line that performs the update, with each word
    /// quoted for the shell where needed; where quoting fails, the words
    /// joined by spaces.
    pub fn command_str(&self) -> (r: String)
        ensures
            shlex_join(command_words(*self)) matches Some(s) ==> r@ == s,
            shlex_join(command_words(*self)) is None ==> r@ == update_command(*self).0 + " "@
                + join_spaced(update_command(*self).1),
            all_plain_words(command_words(*self)) ==> r@ == join_spaced(command_words(*self)),
    {
        let (command, args) = self.command_args();
        let mut words: Vec<&str> = Vec::new();
        words.push(command);
        let mut i: usize = 0;
        while i < args.len()
            invariant
                i <= args.len(),
                words@.len() == i + 1,
                words@[0] == command,
                forall|k: int| 1 <= k <= i ==> #[trigger] words@[k] == args@[k - 1],
            decreases args.len() - i,
        {
            words.push(args[i]);
            i = i + 1;
        }
        assert(word_views(words@) =~= seq![command@] + word_views(args@)) by {
            assert forall|k: int| 0 <= k < words@.len() implies #[trigger] word_views(words@)[k]
                == (seq![command@] + word_views(args@))[k] by {
                if k > 0 {
                    assert(words@[k] == args@[k - 1]);
                }
            }
        }
        assert(word_views(words@) =~= command_words(*self));
        match shlex_try_join(&words) {
            Some(joined) => joined,
            None => {
                let rest = join_with_spaces(&args);
                concat3(command, " ", rest.as_str())
            },
        }
    }

    /// The package this action updates, for the package-manager actions.
    pub fn managed_package(&self) -> (r: Option<&ManagedPackage>)
        ensures
            match r {
                Some(p) => package_of(*self) == Some(p@),
                None => package_of(*self) is None,
            },
    {
        match self {
            UpdateAction::NpmGlobalLatest(package)
            | UpdateAction::BunGlobalLatest(package)
            | UpdateAction::PnpmGlobalLatest(package) => Some(package),
            UpdateAction::BrewUpgrade
            | UpdateAction::StandaloneUnix
            | UpdateAction::StandaloneWindows => None,
        }
    }

    /// The release notes to show for this update.
    pub fn release_notes_url(&self) -> (r: &'static str)
        ensures
            r@ == release_notes_for(*self),
    {
        let nexus = match self.managed_package() {
            Some(package) => str_eq(package.name(), NEXUS_CODEX_NPM_PACKAGE),
            None => false,
        };
        if nexus {
            NEXUS_RELEASE_NOTES_URL
        } else {
            OFFICIAL_RELEASE_NOTES_URL
        }
    }

    /// A copy of this action.
    pub fn duplicate(&self) -> (r: UpdateAction)
        ensures
            kind_of(r) == kind_of(*self),
            package_of(r) == package_of(*self),
    {
        match self {
            UpdateAction::NpmGlobalLatest(p) => UpdateAction::NpmGlobalLatest(p.duplicate()),
            UpdateAction::BunGlobalLatest(p) => UpdateAction::BunGlobalLatest(p.duplicate()),
            UpdateAction::PnpmGlobalLatest(p) => UpdateAction::PnpmGlobalLatest(p.duplicate()),
            UpdateAction::BrewUpgrade => UpdateAction::BrewUpgrade,
            UpdateAction::StandaloneUnix => UpdateAction::StandaloneUnix,
            UpdateAction::StandaloneWindows => UpdateAction::StandaloneWindows,
        }
    }
}

/// A NexusAgentX build is only ever offered a package-manager update.
pub proof fn lemma_nexus_builds_update_through_package_managers(method: InstallMethod)
    ensures
        offered_kind(method, true) is Some ==> is_package_manager(method),
{
}

/// The update offered to a NexusAgentX build keeps to the NexusAgentX
/// distribution: it updates the NexusAgentX package and links the
/// NexusAgentX release notes.
pub proof fn lemma_nexus_updates_stay_on_nexus_package(
    r: Option<UpdateAction>,
    method: InstallMethod,
    cli_version: Seq<char>,
)
    requires
        nexus_version(cli_version),
        is_offered_action(
            r,
            method,
            PackageView { name: package_name_for(cli_version), version: cli_version },
            nexus_version(cli_version),
        ),
    ensures
        r matches Some(a) ==> package_of(a) matches Some(p) && p.name == NEXUS_CODEX_NPM_PACKAGE@
            && release_notes_for(a) == NEXUS_RELEASE_NOTES_URL@,
{
}

/// Both Codex npm package names pass through shell quoting unchanged.
pub proof fn lemma_codex_package_names_are_plain()
    ensures
        shell_plain_word(NEXUS_CODEX_NPM_PACKAGE@),
        shell_plain_word(OFFICIAL_CODEX_NPM_PACKAGE@),
{
    reveal_strlit("@nexus-agent-x/codex");
    reveal_strlit("@openai/codex");
}

/// The command line of a package-manager update needs no quoting when the
/// package name needs none, so [`UpdateAction::command_str`] gives the
/// words joined by spaces, such as `npm install -g @nexus-agent-x/codex`.
pub proof fn lemma_package_manager_commands_need_no_quoting(a: UpdateAction)
    requires
        package_of(a) matches Some(p) && shell_plain_word(p.name),
    ensures
        all_plain_words(command_words(a)),
{
    reveal_strlit("npm");
    reveal_strlit("bun");
    reveal_strlit("pnpm");
    reveal_strlit("install");
    reveal_strlit("add");
    reveal_strlit("-g");
    let ws = command_words(a);
    assert forall|i: int| 0 <= i < ws.len() implies shell_plain_word(#[trigger] ws[i]) by {
        if i == 0 {
            assert(ws[0] == update_command(a).0);
        } else {
            assert(ws[i] == update_command(a).1[i - 1]);
        }
    }
}

} // verus!
