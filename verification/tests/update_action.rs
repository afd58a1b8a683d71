use codex_updates::install::{
    InstallContext, InstallMethod, ManagedPackage, StandalonePlatform, NEXUS_CODEX_NPM_PACKAGE,
    OFFICIAL_CODEX_NPM_PACKAGE, is_nexus_version,
};
use codex_updates::update_action::{
    UpdateAction, NEXUS_RELEASE_NOTES_URL, OFFICIAL_RELEASE_NOTES_URL,
};

fn package(name: &str, version: &str) -> ManagedPackage {
    ManagedPackage::from_parts(name, version).expect("valid managed package")
}

fn action_for(method: InstallMethod) -> Option<UpdateAction> {
    UpdateAction::from_install_context_with_package(
        &InstallContext { method },
        package(OFFICIAL_CODEX_NPM_PACKAGE, "1.2.3"),
        false,
    )
}

fn standalone(platform: StandalonePlatform, release_dir: &str, resources: Option<&str>) -> InstallMethod {
    InstallMethod::Standalone {
        platform,
        release_dir: release_dir.to_string(),
        resources_dir: resources.map(str::to_string),
    }
}

#[test]
fn maps_install_context_to_update_action() {
    let native_release_dir = "/tmp/native-release";
    let resources_dir = "/tmp/native-release/codex-resources";

    assert_eq!(action_for(InstallMethod::Other), None);
    assert_eq!(
        action_for(InstallMethod::Npm),
        Some(UpdateAction::NpmGlobalLatest(package(OFFICIAL_CODEX_NPM_PACKAGE, "1.2.3")))
    );
    assert_eq!(
        action_for(InstallMethod::Bun),
        Some(UpdateAction::BunGlobalLatest(package(OFFICIAL_CODEX_NPM_PACKAGE, "1.2.3")))
    );
    assert_eq!(
        action_for(InstallMethod::Pnpm),
        Some(UpdateAction::PnpmGlobalLatest(package(OFFICIAL_CODEX_NPM_PACKAGE, "1.2.3")))
    );
    assert_eq!(action_for(InstallMethod::Brew), Some(UpdateAction::BrewUpgrade));
    assert_eq!(
        action_for(standalone(StandalonePlatform::Unix, native_release_dir, Some(resources_dir))),
        Some(UpdateAction::StandaloneUnix)
    );
    assert_eq!(
        action_for(standalone(StandalonePlatform::Windows, native_release_dir, Some(resources_dir))),
        Some(UpdateAction::StandaloneWindows)
    );
}

#[test]
fn nexus_builds_only_offer_package_manager_updates() {
    let nexus_package = package(NEXUS_CODEX_NPM_PACKAGE, "0.144.3-nexus.1");
    let standalone_context = InstallContext {
        method: standalone(StandalonePlatform::Unix, "/tmp/nexus-release", None),
    };

    for (method, expected_command) in [
        (InstallMethod::Npm, "npm install -g @nexus-agent-x/codex"),
        (InstallMethod::Bun, "bun install -g @nexus-agent-x/codex"),
        (InstallMethod::Pnpm, "pnpm add -g @nexus-agent-x/codex"),
    ] {
        let action = UpdateAction::from_install_context_with_package(
            &InstallContext { method },
            nexus_package.clone(),
            true,
        )
        .expect("package-manager update action");
        assert_eq!(action.command_str(), expected_command);
        assert_eq!(action.release_notes_url(), NEXUS_RELEASE_NOTES_URL);
    }
    assert_eq!(
        UpdateAction::from_install_context_with_package(&standalone_context, nexus_package, true),
        None
    );
}

#[test]
fn standalone_update_commands_rerun_latest_installer() {
    assert_eq!(
        UpdateAction::StandaloneUnix.command_args(),
        (
            "sh",
            vec!["-c", "curl -fsSL https://chatgpt.com/codex/install.sh | CODEX_NON_INTERACTIVE=1 sh"],
        )
    );
    assert_eq!(
        UpdateAction::StandaloneWindows.command_args(),
        (
            "powershell",
            vec![
                "-ExecutionPolicy",
                "Bypass",
                "-c",
                "$env:CODEX_NON_INTERACTIVE=1; irm https://chatgpt.com/codex/install.ps1 | iex"
            ],
        )
    );
}

#[test]
fn nexus_brew_install_gets_no_update_action() {
    let nexus_package = package(NEXUS_CODEX_NPM_PACKAGE, "0.144.3-nexus.1");
    assert_eq!(
        UpdateAction::from_install_context_with_package(
            &InstallContext { method: InstallMethod::Brew },
            nexus_package,
            true,
        ),
        None
    );
}

#[test]
fn version_decides_package_and_restriction() {
    let npm = InstallContext { method: InstallMethod::Npm };
    let action = UpdateAction::from_install_context_for_version(&npm, "0.144.3-nexus.2")
        .expect("npm action");
    assert_eq!(action.command_str(), "npm install -g @nexus-agent-x/codex");
    assert_eq!(action.release_notes_url(), NEXUS_RELEASE_NOTES_URL);
    assert_eq!(action.managed_package().map(|p| p.version()), Some("0.144.3-nexus.2"));

    let official = UpdateAction::from_install_context_for_version(&npm, "0.144.3")
        .expect("npm action");
    assert_eq!(official.command_str(), "npm install -g @openai/codex");
    assert_eq!(official.release_notes_url(), OFFICIAL_RELEASE_NOTES_URL);

    let brew = InstallContext { method: InstallMethod::Brew };
    assert_eq!(UpdateAction::from_install_context_for_version(&brew, "0.144.3-nexus.2"), None);
    assert_eq!(
        UpdateAction::from_install_context_for_version(&brew, "0.144.3"),
        Some(UpdateAction::BrewUpgrade)
    );
}

#[test]
fn command_str_quotes_shell_syntax() {
    assert_eq!(UpdateAction::BrewUpgrade.command_str(), "brew upgrade codex");
    assert_eq!(UpdateAction::BrewUpgrade.command_args(), ("brew", vec!["upgrade", "codex"]));
    assert_eq!(
        UpdateAction::StandaloneUnix.command_str(),
        "sh -c 'curl -fsSL https://chatgpt.com/codex/install.sh | CODEX_NON_INTERACTIVE=1 sh'"
    );
    assert_eq!(
        UpdateAction::PnpmGlobalLatest(package(OFFICIAL_CODEX_NPM_PACKAGE, "1.0.0")).command_args(),
        ("pnpm", vec!["add", "-g", "@openai/codex"])
    );
}

#[test]
fn brew_and_standalone_actions_have_no_package() {
    assert!(UpdateAction::BrewUpgrade.managed_package().is_none());
    assert!(UpdateAction::StandaloneWindows.managed_package().is_none());
    assert_eq!(UpdateAction::StandaloneUnix.release_notes_url(), OFFICIAL_RELEASE_NOTES_URL);
}

#[test]
fn managed_packages_are_validated() {
    assert!(ManagedPackage::from_parts("left-pad", "1.0.0").is_none());
    assert!(ManagedPackage::from_parts(OFFICIAL_CODEX_NPM_PACKAGE, "").is_none());
    let p = ManagedPackage::for_codex_version("0.144.3-nexus.1");
    assert_eq!(p.name(), NEXUS_CODEX_NPM_PACKAGE);
    assert_eq!(p.cache_key(), "npm:@nexus-agent-x/codex");
    assert!(is_nexus_version("0.144.3-nexus.1-linux-x64"));
    assert!(!is_nexus_version("0.144.3"));
}
