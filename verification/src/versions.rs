//! Semantic-version parsing and precedence, through the `semver` crate.

use vstd::prelude::*;
use crate::text::{trim_seq, trim_whitespace};

verus! {

#[verifier::external_type_specification]
#[verifier::external_body]
pub struct ExSemverVersion(semver::Version);

/// The parts of a parsed semantic version: the three numbers, the
/// pre-release text after `-` and the build metadata after `+` (each empty
/// when absent).
pub struct VersionParts {
    pub major: u64,
    pub minor: u64,
    pub patch: u64,
    pub pre: Seq<char>,
    pub build: Seq<char>,
}

/// What `semver::Version::parse` makes of `text`: `None` where it rejects
/// it, else the parts of the version.
pub uninterp spec fn semver_parse(text: Seq<char>) -> Option<VersionParts>;

/// Whether version `a` has higher precedence than version `b` under
/// `semver::Version`'s ordering.
pub uninterp spec fn semver_greater(a: VersionParts, b: VersionParts) -> bool;

/// A version accepted by `semver::Version::parse`, with its parts.
pub struct SemVersion {
    major: u64,
    minor: u64,
    patch: u64,
    pre: String,
    build: String,
    parsed: semver::Version,
}

impl View for SemVersion {
    type V = VersionParts;

    closed spec fn view(&self) -> VersionParts {
        VersionParts {
            major: self.major,
            minor: self.minor,
            patch: self.patch,
            pre: self.pre@,
            build: self.build@,
        }
    }
}

impl SemVersion {
    /// The major version number.
    pub fn major(&self) -> (r: u64)
        ensures
            r == self@.major,
    {
        self.major
    }

    /// The minor version number.
    pub fn minor(&self) -> (r: u64)
        ensures
            r == self@.minor,
    {
        self.minor
    }

    /// The patch version number.
    pub fn patch(&self) -> (r: u64)
        ensures
            r == self@.patch,
    {
        self.patch
    }

    /// The pre-release text, empty where there is none.
    pub fn pre(&self) -> (r: &str)
        ensures
            r@ == self@.pre,
    {
        self.pre.as_str()
    }
}

/// Calls `semver::Version::parse` on `text`, keeping the parsed value with
/// its parts. The contract claims that the result is what the name
/// `semver_parse` gives for `text`; what `semver` accepts is left to that name.
#[verifier::external_body]
fn semver_parse_text(text: &str) -> (r: Option<SemVersion>)
    ensures
        match r {
            Some(v) => semver_parse(text@) == Some(v@),
            None => semver_parse(text@) is None,
        },
{
    match semver::Version::parse(text) {
        Ok(v) => Some(
            SemVersion {
                major: v.major,
                minor: v.minor,
                patch: v.patch,
                pre: v.pre.as_str().to_string(),
                build: v.build.as_str().to_string(),
                parsed: v,
            },
        ),
        Err(_) => None,
    }
}

/// Whether `s` is an ASCII decimal number without a leading zero.
pub open spec fn decimal_digits(s: Seq<char>) -> bool {
    &&& s.len() > 0
    &&& forall|i: int| 0 <= i < s.len() ==> '0' <= #[trigger] s[i] && s[i] <= '9'
    &&& (s.len() == 1 || s[0] != '0')
}

/// The value of the decimal digits `s`.
pub open spec fn decimal_value(s: Seq<char>) -> int
    decreases s.len(),
{
    if s.len() == 0 {
        0
    } else {
        decimal_value(s.drop_last()) * 10 + (s.last() as int - '0' as int)
    }
}

/// Whether pre-release texts `a` and `b` both have the form `word.N`, with
/// the same `word` of `k` characters and no dot, and decimal numbers `N`:
/// the form of NexusAgentX pre-releases such as `nexus.1` and `nexus.10`.
pub open spec fn numbered_prereleases(a: Seq<char>, b: Seq<char>, k: int) -> bool {
    &&& 0 < k
    &&& k + 1 < a.len()
    &&& k + 1 < b.len()
    &&& a.subrange(0, k) == b.subrange(0, k)
    &&& !a.subrange(0, k).contains('.')
    &&& a[k] == '.'
    &&& b[k] == '.'
    &&& decimal_digits(a.subrange(k + 1, a.len() as int))
    &&& decimal_digits(b.subrange(k + 1, b.len() as int))
}

/// The number after the dot at `k` of a numbered pre-release.
pub open spec fn prerelease_number(pre: Seq<char>, k: int) -> int {
    decimal_value(pre.subrange(k + 1, pre.len() as int))
}

/// `a > b` on `semver::Version`. Besides naming the result, the contract
/// states what `Version`'s derived ordering, `Prerelease`'s ordering and
/// the `Ord` laws give: equal versions are not greater, the order is
/// asymmetric and total, versions are ordered by major, then minor, then
/// patch number, with equal numbers a release ranks above any pre-release
/// (SemVer rule 11, as `semver`'s documentation states), and pre-releases
/// `word.N` with the same word are ordered by the number `N` (numeric
/// identifiers compare numerically). How other pre-releases, and build
/// metadata texts, are ordered is left to the name `semver_greater`.
#[verifier::external_body]
fn semver_gt(a: &SemVersion, b: &SemVersion) -> (r: bool)
    ensures
        r == semver_greater(a@, b@),
        a@ == b@ ==> !r,
        r ==> !semver_greater(b@, a@),
        !r && !semver_greater(b@, a@) ==> a@ == b@,
        a@.major != b@.major ==> r == (a@.major > b@.major),
        a@.major == b@.major && a@.minor != b@.minor ==> r == (a@.minor > b@.minor),
        a@.major == b@.major && a@.minor == b@.minor && a@.patch != b@.patch ==> r == (a@.patch
            > b@.patch),
        a@.major == b@.major && a@.minor == b@.minor && a@.patch == b@.patch && a@.pre.len() == 0
            && b@.pre.len() > 0 ==> r,
        a@.major == b@.major && a@.minor == b@.minor && a@.patch == b@.patch && a@.pre.len() > 0
            && b@.pre.len() == 0 ==> !r,
        forall|k: int|
            #[trigger] numbered_prereleases(a@.pre, b@.pre, k) && a@.major == b@.major && a@.minor
                == b@.minor && a@.patch == b@.patch && prerelease_number(a@.pre, k)
                != prerelease_number(b@.pre, k) ==> r == (prerelease_number(a@.pre, k)
                > prerelease_number(b@.pre, k)),
{
    a.parsed > b.parsed
}

/// The precedence rules of semantic versioning that `greater`, the answer
/// to "is `a` newer than `b`", follows: numbers decide first (major, then
/// minor, then patch), then a release ranks above its pre-releases, and
/// pre-releases `word.N` with the same word are ordered by `N`.
pub open spec fn follows_precedence_rules(a: VersionParts, b: VersionParts, greater: bool) -> bool {
    &&& (a.major != b.major ==> greater == (a.major > b.major))
    &&& (a.major == b.major && a.minor != b.minor ==> greater == (a.minor > b.minor))
    &&& (a.major == b.major && a.minor == b.minor && a.patch != b.patch ==> greater == (a.patch
        > b.patch))
    &&& (a.major == b.major && a.minor == b.minor && a.patch == b.patch && a.pre.len() == 0
        && b.pre.len() > 0 ==> greater)
    &&& (a.major == b.major && a.minor == b.minor && a.patch == b.patch && a.pre.len() > 0
        && b.pre.len() == 0 ==> !greater)
    &&& forall|k: int|
        #[trigger] numbered_prereleases(a.pre, b.pre, k) && a.major == b.major && a.minor
            == b.minor && a.patch == b.patch && prerelease_number(a.pre, k) != prerelease_number(
            b.pre,
            k,
        ) ==> greater == (prerelease_number(a.pre, k) > prerelease_number(b.pre, k))
}

/// The parse of `value` with surrounding whitespace removed.
pub open spec fn parsed_version(value: Seq<char>) -> Option<VersionParts> {
    semver_parse(trim_seq(value))
}

/// Parses `value`, ignoring leading and trailing whitespace, as a semantic
/// version.
pub fn parse_version(value: &str) -> (r: Option<SemVersion>)
    ensures
        match r {
            Some(v) => parsed_version(value@) == Some(v@),
            None => parsed_version(value@) is None,
        },
{
    semver_parse_text(trim_whitespace(value))
}

/// `Some(latest > current)` when both parse as semantic versions, else `None`.
pub open spec fn newer_than(latest: Seq<char>, current: Seq<char>) -> Option<bool> {
    match (parsed_version(latest), parsed_version(current)) {
        (Some(l), Some(c)) => Some(semver_greater(l, c)),
        _ => None,
    }
}

/// Whether `latest` is a newer semantic version than `current`; `None`
/// when either of them does not parse.
///
/// The answer is an asymmetric relation: a version is never newer than an
/// equal one, and of two distinct parsed versions exactly one is newer. It
/// follows the precedence rules of semantic versioning, pre-release
/// ordering included: `0.144.3-nexus.10` is newer than `0.144.3-nexus.9`,
/// and `0.144.3` is newer than both.
pub fn is_newer(latest: &str, current: &str) -> (r: Option<bool>)
    ensures
        r == newer_than(latest@, current@),
        r is Some <==> newer_than(current@, latest@) is Some,
        r == Some(true) ==> newer_than(current@, latest@) == Some(false),
        r matches Some(g) ==> follows_precedence_rules(
            parsed_version(latest@)->0,
            parsed_version(current@)->0,
            g,
        ),
        r == Some(false) ==> (newer_than(current@, latest@) == Some(true) || parsed_version(
            latest@,
        ) == parsed_version(current@)),
        parsed_version(latest@) is Some && parsed_version(latest@) == parsed_version(current@)
            ==> r == Some(false),
{
    match (parse_version(latest), parse_version(current)) {
        (Some(l), Some(c)) => Some(semver_gt(&l, &c)),
        _ => None,
    }
}

/// Whether `version` is the `0.0.0` core version that source builds carry.
pub open spec fn is_source_build(version: Seq<char>) -> bool {
    match parsed_version(version) {
        Some(v) => v.major == 0 && v.minor == 0 && v.patch == 0,
        None => false,
    }
}

/// Whether `version` marks a build from source rather than a release: it
/// parses as a semantic version whose core is `0.0.0`.
pub fn is_source_build_version(version: &str) -> (r: bool)
    ensures
        r == is_source_build(version@),
        r == (parsed_version(version@) is Some && parsed_version(version@)->0.major == 0
            && parsed_version(version@)->0.minor == 0 && parsed_version(version@)->0.patch == 0),
{
    match parse_version(version) {
        Some(v) => v.major() == 0 && v.minor() == 0 && v.patch() == 0,
        None => false,
    }
}

/// A version is a source build exactly when it parses as a semantic
/// version whose major, minor and patch numbers are all zero: any release,
/// `x.y.0` ones and `0.x.y` ones included, is not one, and neither is text
/// that does not parse.
pub proof fn lemma_source_build_is_zero_core(version: Seq<char>)
    ensures
        is_source_build(version) <==> (parsed_version(version) is Some && parsed_version(
            version,
        )->0.major == 0 && parsed_version(version)->0.minor == 0 && parsed_version(
            version,
        )->0.patch == 0),
        parsed_version(version) is None ==> !is_source_build(version),
        parsed_version(version) matches Some(p) && (p.major != 0 || p.minor != 0 || p.patch != 0)
            ==> !is_source_build(version),
{
}

} // verus!
