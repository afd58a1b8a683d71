use codex_updates::text::trim_whitespace;
use codex_updates::versions::{is_newer, is_source_build_version, parse_version};

#[test]
fn is_newer_compares_plain_semver() {
    assert_eq!(is_newer("1.2.4", "1.2.3"), Some(true));
    assert_eq!(is_newer("1.2.3", "1.2.4"), Some(false));
    assert_eq!(is_newer("1.2.3-beta.1", "1.2.2"), Some(true));
    assert_eq!(is_newer("0.144.3-nexus.2", "0.144.3-nexus.1"), Some(true));
}

#[test]
fn is_newer_is_none_when_either_side_is_not_semver() {
    assert_eq!(is_newer("latest", "1.2.3"), None);
    assert_eq!(is_newer("1.2.3", "1.2"), None);
    assert_eq!(is_newer("", ""), None);
}

#[test]
fn is_newer_ignores_surrounding_whitespace() {
    assert_eq!(is_newer("  1.3.0\n", "\t1.2.9 "), Some(true));
}

#[test]
fn equal_versions_are_not_newer() {
    assert_eq!(is_newer("0.144.3-nexus.1", "0.144.3-nexus.1"), Some(false));
    assert_eq!(is_newer("2.0.0", "2.0.0"), Some(false));
}

#[test]
fn release_ranks_above_its_prereleases() {
    assert_eq!(is_newer("0.144.3", "0.144.3-nexus.9"), Some(true));
    assert_eq!(is_newer("0.144.3-nexus.9", "0.144.3"), Some(false));
}

#[test]
fn prerelease_identifiers_compare_numerically() {
    assert_eq!(is_newer("1.0.0-nexus.10", "1.0.0-nexus.9"), Some(true));
    assert_eq!(is_newer("1.0.0-alpha", "1.0.0-alpha.1"), Some(false));
}

#[test]
fn newer_is_asymmetric() {
    let pairs = [("1.2.4", "1.2.3"), ("3.0.0", "2.9.9"), ("0.1.0-rc.1", "0.1.0-beta.2")];
    for (a, b) in pairs {
        assert_eq!(is_newer(a, b), Some(true));
        assert_eq!(is_newer(b, a), Some(false));
    }
}

#[test]
fn parse_version_reads_the_parts() {
    let v = parse_version(" 0.144.3-nexus.1 ").expect("semantic version");
    assert_eq!(v.major(), 0);
    assert_eq!(v.minor(), 144);
    assert_eq!(v.patch(), 3);
    assert_eq!(v.pre(), "nexus.1");
    assert!(parse_version("01.2.3").is_none());
}

#[test]
fn source_builds_are_version_zero() {
    assert!(is_source_build_version("0.0.0"));
    assert!(is_source_build_version("0.0.0-dev"));
    assert!(!is_source_build_version("0.0.1"));
    assert!(!is_source_build_version("not a version"));
}

#[test]
fn trim_removes_unicode_whitespace_at_both_ends() {
    assert_eq!(trim_whitespace("\u{a0} 1.2.3\u{3000}\n"), "1.2.3");
    assert_eq!(trim_whitespace("   "), "");
    assert_eq!(trim_whitespace("a b"), "a b");
}
