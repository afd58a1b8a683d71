//! npm registry metadata: the package URL and the latest version that is
//! ready to install.

use vstd::prelude::*;
use crate::text::{concat3, copy_string, str_eq, trim_seq, trim_whitespace};
use vstd::string::StringSliceAdditionalSpecFns;

verus! {

/// The npm registry that Codex packages are published to.
pub const NPM_REGISTRY_URL: &'static str = "https://registry.npmjs.org/";

/// The dist-tag that names the version npm installs by default.
pub const LATEST_DIST_TAG: &'static str = "latest";

/// Why a path segment could not be added to a URL.
#[derive(Debug, Clone, PartialEq, Eq)]
pub enum UrlSegmentError {
    /// The base URL did not parse; the parser's message.
    InvalidBase(String),
    /// The base URL cannot have path segments (a "cannot-be-a-base" URL).
    CannotBeABase,
}

/// The view of a [`UrlSegmentError`].
pub enum UrlSegmentFailure {
    InvalidBase(Seq<char>),
    CannotBeABase,
}

impl View for UrlSegmentError {
    type V = UrlSegmentFailure;

    open spec fn view(&self) -> UrlSegmentFailure {
        match self {
            UrlSegmentError::InvalidBase(m) => UrlSegmentFailure::InvalidBase(m@),
            UrlSegmentError::CannotBeABase => UrlSegmentFailure::CannotBeABase,
        }
    }
}

/// What the `url` crate makes of parsing `base` and pushing `segment` onto
/// its path: the serialized URL, or why that failed.
pub uninterp spec fn url_with_path_segment(base: Seq<char>, segment: Seq<char>) -> Result<
    Seq<char>,
    UrlSegmentFailure,
>;

/// Characters of a package name that a URL path segment keeps as they are:
/// ASCII letters and digits, `-`, `_` and `@`; and `/`, which a path
/// segment encodes as `%2F`.
pub open spec fn registry_name_char(c: char) -> bool {
    ||| ('a' <= c && c <= 'z')
    ||| ('A' <= c && c <= 'Z')
    ||| ('0' <= c && c <= '9')
    ||| c == '-' || c == '_' || c == '@' || c == '/'
}

/// Whether `name` is not empty and made of [`registry_name_char`]s.
pub open spec fn registry_plain_name(name: Seq<char>) -> bool {
    name.len() > 0 && forall|i: int| 0 <= i < name.len() ==> registry_name_char(#[trigger] name[i])
}

/// `s` with each `/` written as `%2F`.
pub open spec fn encode_slashes(s: Seq<char>) -> Seq<char>
    decreases s.len(),
{
    if s.len() == 0 {
        Seq::empty()
    } else {
        encode_slashes(s.drop_last()) + if s.last() == '/' {
            seq!['%', '2', 'F']
        } else {
            seq![s.last()]
        }
    }
}

/// Whether a URL that `segment` is appended to, percent-encoded, stays
/// within the 4 GiB that the `url` crate supports: three times its UTF-8
/// bytes, with a mebibyte to spare for the base, is below `u32::MAX`.
pub open spec fn segment_fits_url(segment: &str) -> bool {
    3 * segment.spec_bytes().len() + 1048576 < u32::MAX
}

/// Parses `base` with `url::Url::parse`, appends `segment` as one path
/// segment with `PathSegmentsMut::push` (which percent-encodes it, `/`
/// included) and returns the serialized URL. The contract claims that the
/// outcome is the one that the name `url_with_path_segment` gives for these
/// arguments, and states what the crate's source shows for the registry
/// URL, whose path is `/`: a segment made of ASCII letters, digits, `-`,
/// `_`, `@` and `/` is appended as it is, each `/` encoded as `%2F`. How
/// other characters and other bases are treated is left to the name.
///
/// The `url` crate stores offsets into a URL as `u32` and panics when an
/// edited URL grows past `u32::MAX` bytes. The `requires` keeps the result
/// below that: a base of at most 256 characters serializes to far less than
/// a mebibyte, and percent-encoding at most triples the segment's bytes.
#[verifier::external_body]
pub(crate) fn push_url_path_segment(base: &str, segment: &str) -> (r: Result<String, UrlSegmentError>)
    requires
        base@.len() <= 256,
        segment_fits_url(segment),
    ensures
        r matches Ok(u) ==> (url_with_path_segment(base@, segment@) matches Ok(t) && t == u@),
        r matches Err(e) ==> (url_with_path_segment(base@, segment@) matches Err(f) && f == e@),
        base@ == NPM_REGISTRY_URL@ && registry_plain_name(segment@) ==> r is Ok,
        r matches Ok(u) ==> (base@ == NPM_REGISTRY_URL@ && registry_plain_name(segment@) ==> u@
            == base@ + encode_slashes(segment@)),
{
    let mut url = match url::Url::parse(base) {
        Ok(url) => url,
        Err(err) => return Err(UrlSegmentError::InvalidBase(err.to_string())),
    };
    match url.path_segments_mut() {
        Ok(mut segments) => {
            segments.push(segment);
        },
        Err(()) => return Err(UrlSegmentError::CannotBeABase),
    }
    Ok(url.as_str().to_string())
}

/// Why npm registry metadata cannot be used.
#[derive(Debug, Clone, PartialEq, Eq)]
pub enum RegistryError {
    /// The registry URL did not parse; the parser's message.
    InvalidRegistryUrl(String),
    /// The registry URL cannot hold package paths.
    RegistryUrlCannotHavePaths,
    /// The `latest` dist-tag is missing or blank.
    MissingLatestTag,
    /// The version named by the dist-tag has no metadata.
    MissingVersion(String),
    /// The version has no `dist` metadata.
    MissingDist(String),
    /// The version's `dist.tarball` is missing or empty.
    MissingTarball(String),
    /// The version's `dist.integrity` is missing or empty.
    MissingIntegrity(String),
}

/// The view of a [`RegistryError`].
pub enum RegistryFailure {
    InvalidRegistryUrl(Seq<char>),
    RegistryUrlCannotHavePaths,
    MissingLatestTag,
    MissingVersion(Seq<char>),
    MissingDist(Seq<char>),
    MissingTarball(Seq<char>),
    MissingIntegrity(Seq<char>),
}

impl View for RegistryError {
    type V = RegistryFailure;

    open spec fn view(&self) -> RegistryFailure {
        match self {
            RegistryError::InvalidRegistryUrl(m) => RegistryFailure::InvalidRegistryUrl(m@),
            RegistryError::RegistryUrlCannotHavePaths => RegistryFailure::RegistryUrlCannotHavePaths,
            RegistryError::MissingLatestTag => RegistryFailure::MissingLatestTag,
            RegistryError::MissingVersion(v) => RegistryFailure::MissingVersion(v@),
            RegistryError::MissingDist(v) => RegistryFailure::MissingDist(v@),
            RegistryError::MissingTarball(v) => RegistryFailure::MissingTarball(v@),
            RegistryError::MissingIntegrity(v) => RegistryFailure::MissingIntegrity(v@),
        }
    }
}

/// The message that describes `e`.
pub open spec fn registry_message(e: RegistryFailure) -> Seq<char> {
    match e {
        RegistryFailure::InvalidRegistryUrl(m) => m,
        RegistryFailure::RegistryUrlCannotHavePaths => "npm registry URL cannot contain package paths"@,
        RegistryFailure::MissingLatestTag => "npm package is missing latest dist-tag"@,
        RegistryFailure::MissingVersion(v) => "npm package version "@ + v + " is missing"@,
        RegistryFailure::MissingDist(v) => "npm package version "@ + v
            + " is missing dist metadata"@,
        RegistryFailure::MissingTarball(v) => "npm package version "@ + v
            + " is missing dist.tarball"@,
        RegistryFailure::MissingIntegrity(v) => "npm package version "@ + v
            + " is missing dist.integrity"@,
    }
}

impl RegistryError {
    /// The message that describes this error.
    pub fn message(&self) -> (r: String)
        ensures
            r@ == registry_message(self@),
    {
        match self {
            RegistryError::InvalidRegistryUrl(m) => copy_string(m),
            RegistryError::RegistryUrlCannotHavePaths => String::from_str(
                "npm registry URL cannot contain package paths",
            ),
            RegistryError::MissingLatestTag => String::from_str(
                "npm package is missing latest dist-tag",
            ),
            RegistryError::MissingVersion(v) => concat3(
                "npm package version ",
                v.as_str(),
                " is missing",
            ),
            RegistryError::MissingDist(v) => concat3(
                "npm package version ",
                v.as_str(),
                " is missing dist metadata",
            ),
            RegistryError::MissingTarball(v) => concat3(
                "npm package version ",
                v.as_str(),
                " is missing dist.tarball",
            ),
            RegistryError::MissingIntegrity(v) => concat3(
                "npm package version ",
                v.as_str(),
                " is missing dist.integrity",
            ),
        }
    }
}

/// The registry URL of `package_name`: the registry URL with the package
/// name appended as one percent-encoded path segment.
pub fn package_url(package_name: &str) -> (r: Result<String, RegistryError>)
    requires
        segment_fits_url(package_name),
    ensures
        match url_with_path_segment(NPM_REGISTRY_URL@, package_name@) {
            Ok(u) => r matches Ok(s) && s@ == u,
            Err(UrlSegmentFailure::InvalidBase(m)) => r matches Err(e) && e@
                == RegistryFailure::InvalidRegistryUrl(m),
            Err(UrlSegmentFailure::CannotBeABase) => r matches Err(e) && e@
                == RegistryFailure::RegistryUrlCannotHavePaths,
        },
        registry_plain_name(package_name@) ==> (r matches Ok(u) && u@ == NPM_REGISTRY_URL@
            + encode_slashes(package_name@)),
{
    proof {
        reveal_strlit("https://registry.npmjs.org/");
    }
    match push_url_path_segment(NPM_REGISTRY_URL, package_name) {
        Ok(url) => Ok(url),
        Err(UrlSegmentError::InvalidBase(m)) => Err(RegistryError::InvalidRegistryUrl(m)),
        Err(UrlSegmentError::CannotBeABase) => Err(RegistryError::RegistryUrlCannotHavePaths),
    }
}

/// The `dist` metadata of one published version.
#[derive(Debug, Clone, PartialEq, Eq)]
pub struct NpmPackageDist {
    pub tarball: Option<String>,
    pub integrity: Option<String>,
}

/// The view of [`NpmPackageDist`].
pub struct DistView {
    pub tarball: Option<Seq<char>>,
    pub integrity: Option<Seq<char>>,
}

/// The view of an optional string.
pub open spec fn opt_view(s: Option<String>) -> Option<Seq<char>> {
    match s {
        Some(v) => Some(v@),
        None => None,
    }
}

impl View for NpmPackageDist {
    type V = DistView;

    open spec fn view(&self) -> DistView {
        DistView { tarball: opt_view(self.tarball), integrity: opt_view(self.integrity) }
    }
}

/// The metadata of one published version.
#[derive(Debug, Clone, PartialEq, Eq)]
pub struct NpmPackageVersionInfo {
    pub dist: Option<NpmPackageDist>,
}

impl View for NpmPackageVersionInfo {
    type V = Option<DistView>;

    open spec fn view(&self) -> Option<DistView> {
        match self.dist {
            Some(d) => Some(d@),
            None => None,
        }
    }
}

/// Whether no two entries of `e` have the same key.
pub open spec fn keys_distinct<V>(e: Seq<(String, V)>) -> bool {
    forall|i: int, j: int|
        0 <= i < e.len() && 0 <= j < e.len() && i != j ==> #[trigger] e[i].0@ != #[trigger] e[j].0@
}

/// The map that a list of entries with distinct keys stands for.
pub open spec fn entries_map<V: View>(e: Seq<(String, V)>) -> Map<Seq<char>, V::V>
    decreases e.len(),
{
    if e.len() == 0 {
        Map::empty()
    } else {
        entries_map(e.drop_last()).insert(e.last().0@, e.last().1@)
    }
}

proof fn lemma_entries_map<V: View>(e: Seq<(String, V)>)
    requires
        keys_distinct(e),
    ensures
        forall|i: int|
            0 <= i < e.len() ==> #[trigger] entries_map(e).contains_key(e[i].0@) && entries_map(
                e,
            )[e[i].0@] == e[i].1@,
        forall|k: Seq<char>|
            #[trigger] entries_map(e).contains_key(k) ==> exists|i: int|
                0 <= i < e.len() && #[trigger] e[i].0@ == k,
    decreases e.len(),
{
    if e.len() > 0 {
        let d = e.drop_last();
        assert(keys_distinct(d)) by {
            assert forall|i: int, j: int|
                0 <= i < d.len() && 0 <= j < d.len() && i != j implies #[trigger] d[i].0@
                != #[trigger] d[j].0@ by {
                assert(d[i] == e[i] && d[j] == e[j]);
            }
        }
        lemma_entries_map(d);
        assert(entries_map(e) == entries_map(d).insert(e.last().0@, e.last().1@));
        assert forall|i: int| 0 <= i < e.len() implies #[trigger] entries_map(e).contains_key(
            e[i].0@,
        ) && entries_map(e)[e[i].0@] == e[i].1@ by {
            if i < e.len() - 1 {
                assert(d[i] == e[i]);
                assert(e[i].0@ != e[e.len() - 1].0@);
            }
        }
        assert forall|k: Seq<char>| #[trigger] entries_map(e).contains_key(k) implies exists|i: int|
            0 <= i < e.len() && #[trigger] e[i].0@ == k by {
            if k != e.last().0@ {
                assert(entries_map(d).contains_key(k));
                let i = choose|i: int| 0 <= i < d.len() && #[trigger] d[i].0@ == k;
                assert(e[i] == d[i]);
            } else {
                assert(e[e.len() - 1].0@ == k);
            }
        }
    }
}

/// Finds the entry with key `key`.
fn find_entry<V: View>(e: &Vec<(String, V)>, key: &str) -> (r: Option<usize>)
    ensures
        match r {
            Some(i) => i < e@.len() && e@[i as int].0@ == key@,
            None => forall|i: int| 0 <= i < e@.len() ==> #[trigger] e@[i].0@ != key@,
        },
{
    let mut i: usize = 0;
    while i < e.len()
        invariant
            i <= e@.len(),
            forall|k: int| 0 <= k < i ==> #[trigger] e@[k].0@ != key@,
        decreases e.len() - i,
    {
        if str_eq(e[i].0.as_str(), key) {
            return Some(i);
        }
        i = i + 1;
    }
    None
}

/// Whether the keys of `e` are pairwise distinct, checked at run time.
fn entries_keys_distinct<V>(e: &Vec<(String, V)>) -> (r: bool)
    ensures
        r == keys_distinct(e@),
{
    let mut i: usize = 0;
    while i < e.len()
        invariant
            i <= e@.len(),
            forall|a: int, b: int|
                0 <= a < i && 0 <= b < e@.len() && a != b ==> #[trigger] e@[a].0@
                    != #[trigger] e@[b].0@,
        decreases e.len() - i,
    {
        let mut j: usize = 0;
        while j < e.len()
            invariant
                i < e@.len(),
                j <= e@.len(),
                forall|a: int, b: int|
                    0 <= a < i && 0 <= b < e@.len() && a != b ==> #[trigger] e@[a].0@
                        != #[trigger] e@[b].0@,
                forall|b: int| 0 <= b < j && b != i ==> #[trigger] e@[b].0@ != e@[i as int].0@,
            decreases e.len() - j,
        {
            if j != i && str_eq(e[i].0.as_str(), e[j].0.as_str()) {
                return false;
            }
            j = j + 1;
        }
        assert forall|a: int, b: int|
            0 <= a < i + 1 && 0 <= b < e@.len() && a != b implies #[trigger] e@[a].0@
            != #[trigger] e@[b].0@ by {
            if a == i {
                assert(e@[b].0@ != e@[i as int].0@);
            }
        }
        i = i + 1;
    }
    true
}

/// The view of npm package metadata: its dist-tags, and the metadata of
/// each published version.
pub struct PackageInfoView {
    pub dist_tags: Map<Seq<char>, Seq<char>>,
    pub versions: Map<Seq<char>, Option<DistView>>,
}

/// npm package metadata as the registry serves it: the dist-tags, which
/// name versions, and the metadata of each published version. Within each
/// of the two lists no key occurs twice.
#[derive(Debug)]
pub struct NpmPackageInfo {
    dist_tags: Vec<(String, String)>,
    versions: Vec<(String, NpmPackageVersionInfo)>,
}

impl NpmPackageInfo {
    /// The invariant: no key occurs twice in either list.
    #[verifier::type_invariant]
    spec fn keys_unique(self) -> bool {
        keys_distinct(self.dist_tags@) && keys_distinct(self.versions@)
    }
}

impl View for NpmPackageInfo {
    type V = PackageInfoView;

    closed spec fn view(&self) -> PackageInfoView {
        PackageInfoView {
            dist_tags: entries_map(self.dist_tags@),
            versions: entries_map(self.versions@),
        }
    }
}

impl NpmPackageInfo {
    /// Package metadata from its dist-tags and its versions; `None` where a
    /// dist-tag or a version occurs twice.
    pub fn new(dist_tags: Vec<(String, String)>, versions: Vec<(String, NpmPackageVersionInfo)>) -> (r:
        Option<NpmPackageInfo>)
        ensures
            r is Some <==> keys_distinct(dist_tags@) && keys_distinct(versions@),
            r matches Some(info) ==> info@.dist_tags == entries_map(dist_tags@) && info@.versions
                == entries_map(versions@),
    {
        if entries_keys_distinct(&dist_tags) && entries_keys_distinct(&versions) {
            Some(NpmPackageInfo { dist_tags, versions })
        } else {
            None
        }
    }

    /// The version that dist-tag `tag` names, if the tag exists.
    pub fn dist_tag(&self, tag: &str) -> (r: Option<&str>)
        ensures
            match r {
                Some(v) => self@.dist_tags.contains_key(tag@) && self@.dist_tags[tag@] == v@,
                None => !self@.dist_tags.contains_key(tag@),
            },
    {
        proof {
            use_type_invariant(self);
            lemma_entries_map(self.dist_tags@);
        }
        match find_entry(&self.dist_tags, tag) {
            Some(i) => {
                let v = self.dist_tags[i].1.as_str();
                assert(entries_map(self.dist_tags@).contains_key(self.dist_tags@[i as int].0@));
                Some(v)
            },
            None => None,
        }
    }

    /// The metadata of version `version`, if it was published.
    pub fn version_info(&self, version: &str) -> (r: Option<&NpmPackageVersionInfo>)
        ensures
            match r {
                Some(v) => self@.versions.contains_key(version@) && self@.versions[version@] == v@,
                None => !self@.versions.contains_key(version@),
            },
    {
        proof {
            use_type_invariant(self);
            lemma_entries_map(self.versions@);
        }
        match find_entry(&self.versions, version) {
            Some(i) => {
                assert(entries_map(self.versions@).contains_key(self.versions@[i as int].0@));
                Some(&self.versions[i].1)
            },
            None => None,
        }
    }
}

/// Whether an optional string is present and not empty.
pub open spec fn present_nonempty(s: Option<Seq<char>>) -> bool {
    s matches Some(v) && v.len() > 0
}

/// Whether `version` of a package can be installed: it was published with
/// `dist` metadata that names a tarball and its integrity; else the error.
pub open spec fn dist_outcome(
    versions: Map<Seq<char>, Option<DistView>>,
    version: Seq<char>,
) -> Result<DistView, RegistryFailure> {
    if !versions.contains_key(version) {
        Err(RegistryFailure::MissingVersion(version))
    } else {
        match versions[version] {
            None => Err(RegistryFailure::MissingDist(version)),
            Some(d) => if !present_nonempty(d.tarball) {
                Err(RegistryFailure::MissingTarball(version))
            } else if !present_nonempty(d.integrity) {
                Err(RegistryFailure::MissingIntegrity(version))
            } else {
                Ok(d)
            },
        }
    }
}

/// Whether `version` was published with `dist` metadata whose tarball and
/// integrity are both present and not empty.
pub open spec fn ready_to_install(
    versions: Map<Seq<char>, Option<DistView>>,
    version: Seq<char>,
) -> bool {
    &&& versions.contains_key(version)
    &&& versions[version] is Some
    &&& versions[version]->0.tarball is Some
    &&& versions[version]->0.tarball->0.len() > 0
    &&& versions[version]->0.integrity is Some
    &&& versions[version]->0.integrity->0.len() > 0
}

/// A version is ready to install exactly when it was published with `dist`
/// metadata whose tarball and integrity are both present and not empty;
/// each missing part gives its own error, checked in that order.
pub proof fn lemma_dist_outcome_checks(
    versions: Map<Seq<char>, Option<DistView>>,
    version: Seq<char>,
)
    ensures
        dist_outcome(versions, version) is Ok <==> ready_to_install(versions, version),
        dist_outcome(versions, version) matches Ok(d) ==> versions[version] == Some(d),
        !versions.contains_key(version) ==> dist_outcome(versions, version) == Err::<
            DistView,
            RegistryFailure,
        >(RegistryFailure::MissingVersion(version)),
        versions.contains_key(version) && versions[version] is None ==> dist_outcome(
            versions,
            version,
        ) == Err::<DistView, RegistryFailure>(RegistryFailure::MissingDist(version)),
        versions.contains_key(version) && versions[version] is Some && (versions[version]->0.tarball is None
            || versions[version]->0.tarball->0.len() == 0) ==> dist_outcome(versions, version)
            == Err::<DistView, RegistryFailure>(RegistryFailure::MissingTarball(version)),
        versions.contains_key(version) && versions[version] is Some && versions[version]->0.tarball is Some
            && versions[version]->0.tarball->0.len() > 0 && (versions[version]->0.integrity is None
            || versions[version]->0.integrity->0.len() == 0) ==> dist_outcome(versions, version)
            == Err::<DistView, RegistryFailure>(RegistryFailure::MissingIntegrity(version)),
{
}

/// The `latest` version is reported ready only when it was published with
/// a tarball and its integrity; a published version that lacks its
/// integrity is refused with that error.
pub proof fn lemma_ready_version_needs_integrity(info: PackageInfoView)
    ensures
        ready_version(info) matches Ok(v) ==> ready_to_install(info.versions, v)
            && info.dist_tags.contains_key(LATEST_DIST_TAG@) && v == trim_seq(
            info.dist_tags[LATEST_DIST_TAG@],
        ),
        info.dist_tags.contains_key(LATEST_DIST_TAG@) && trim_seq(
            info.dist_tags[LATEST_DIST_TAG@],
        ).len() > 0 && ready_to_install(info.versions, trim_seq(info.dist_tags[LATEST_DIST_TAG@]))
            ==> ready_version(info) == Ok::<Seq<char>, RegistryFailure>(
            trim_seq(info.dist_tags[LATEST_DIST_TAG@]),
        ),
        ({
            let v = trim_seq(info.dist_tags[LATEST_DIST_TAG@]);
            info.dist_tags.contains_key(LATEST_DIST_TAG@) && v.len() > 0
                && info.versions.contains_key(v) && info.versions[v] is Some
                && info.versions[v]->0.tarball is Some && info.versions[v]->0.tarball->0.len() > 0
                && info.versions[v]->0.integrity is None ==> ready_version(info) == Err::<
                Seq<char>,
                RegistryFailure,
            >(RegistryFailure::MissingIntegrity(v))
        }),
{
}

/// Whether an optional string is present and not empty.
fn is_present_nonempty(s: &Option<String>) -> (r: bool)
    ensures
        r == present_nonempty(opt_view(*s)),
{
    match s {
        Some(v) => v.as_str().unicode_len() > 0,
        None => false,
    }
}

/// The metadata of `version`, provided it has `dist` metadata with a
/// non-empty tarball and integrity.
pub fn version_info_with_dist<'a>(package_info: &'a NpmPackageInfo, version: &str) -> (r: Result<
    &'a NpmPackageVersionInfo,
    RegistryError,
>)
    ensures
        match r {
            Ok(info) => dist_outcome(package_info@.versions, version@) == Ok::<
                DistView,
                RegistryFailure,
            >(info@->0) && info@ is Some,
            Err(e) => dist_outcome(package_info@.versions, version@) == Err::<
                DistView,
                RegistryFailure,
            >(e@),
        },
        r is Ok <==> ready_to_install(package_info@.versions, version@),
        r matches Ok(info) ==> package_info@.versions.contains_key(version@)
            && package_info@.versions[version@] == info@,
{
    let info = match package_info.version_info(version) {
        Some(info) => info,
        None => return Err(RegistryError::MissingVersion(String::from_str(version))),
    };
    let dist = match &info.dist {
        Some(dist) => dist,
        None => return Err(RegistryError::MissingDist(String::from_str(version))),
    };
    if !is_present_nonempty(&dist.tarball) {
        return Err(RegistryError::MissingTarball(String::from_str(version)));
    }
    if !is_present_nonempty(&dist.integrity) {
        return Err(RegistryError::MissingIntegrity(String::from_str(version)));
    }
    Ok(info)
}

/// The version that the `latest` dist-tag names, trimmed, provided it is
/// not blank and was published ready to install; else the error.
pub open spec fn ready_version(info: PackageInfoView) -> Result<Seq<char>, RegistryFailure> {
    if !info.dist_tags.contains_key(LATEST_DIST_TAG@) || trim_seq(
        info.dist_tags[LATEST_DIST_TAG@],
    ).len() == 0 {
        Err(RegistryFailure::MissingLatestTag)
    } else {
        let version = trim_seq(info.dist_tags[LATEST_DIST_TAG@]);
        match dist_outcome(info.versions, version) {
            Ok(_) => Ok(version),
            Err(e) => Err(e),
        }
    }
}

/// The version that the `latest` dist-tag names, provided that version was
/// published with a tarball and its integrity.
pub fn latest_ready_version(package_info: &NpmPackageInfo) -> (r: Result<String, RegistryError>)
    ensures
        match r {
            Ok(v) => ready_version(package_info@) == Ok::<Seq<char>, RegistryFailure>(v@),
            Err(e) => ready_version(package_info@) == Err::<Seq<char>, RegistryFailure>(e@),
        },
        r matches Ok(v) ==> v@.len() > 0 && package_info@.versions.contains_key(v@),
        r matches Ok(v) ==> ready_to_install(package_info@.versions, v@) && package_info@.dist_tags.contains_key(
            LATEST_DIST_TAG@,
        ) && v@ == trim_seq(package_info@.dist_tags[LATEST_DIST_TAG@]),
        package_info@.dist_tags.contains_key(LATEST_DIST_TAG@) && trim_seq(
            package_info@.dist_tags[LATEST_DIST_TAG@],
        ).len() > 0 && ready_to_install(
            package_info@.versions,
            trim_seq(package_info@.dist_tags[LATEST_DIST_TAG@]),
        ) ==> r is Ok,
{
    let tagged = match package_info.dist_tag(LATEST_DIST_TAG) {
        Some(v) => v,
        None => return Err(RegistryError::MissingLatestTag),
    };
    let version = trim_whitespace(tagged);
    if version.unicode_len() == 0 {
        return Err(RegistryError::MissingLatestTag);
    }
    match version_info_with_dist(package_info, version) {
        Ok(_) => Ok(String::from_str(version)),
        Err(e) => Err(e),
    }
}

} // verus!
