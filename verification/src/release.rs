//! Release metadata: picking the installable asset, reading version tags
//! and digests, and comparing versions.

use vstd::prelude::*;
use crate::text::{chars_of, chars_from, string_of, has_prefix, has_suffix, starts_with_lit,
    ends_with_chars, push_lit, push_chars};

verus! {

/// The version of this build.
pub const CURRENT_VERSION: &'static str = "2.3.3";

/// The parts of a published release the updater uses.
#[derive(Debug, Clone, PartialEq, Eq)]
pub struct ReleaseInfo {
    pub tag_name: String,
    pub body: String,
    pub assets: Vec<AssetInfo>,
}

/// One downloadable asset of a release. `digest`, when published, has the
/// form `"sha256:<hex>"`.
#[derive(Debug, Clone, PartialEq, Eq)]
pub struct AssetInfo {
    pub name: String,
    pub browser_download_url: String,
    pub size: u64,
    pub digest: Option<String>,
}

/// Why release metadata could not be used.
#[derive(Debug, Clone, PartialEq, Eq)]
pub enum ReleaseError {
    /// The release carries no `.dmg` asset.
    NoDmgAsset,
    /// A tag that is neither `v<version>` nor starts with a digit.
    BadVersionTag(String),
    /// A digest that is not `sha256:<hex>`.
    UnsupportedDigest(String),
    /// A release tag whose version is not a semantic version, with
    /// semver's reason.
    InvalidVersion { tag: String, cause: String },
    /// This build's own version is not a semantic version, with semver's
    /// reason.
    InvalidBuildVersion { cause: String },
}

/// The disk-image suffix.
pub open spec fn dmg_suffix() -> Seq<char> {
    ".dmg"@
}

/// The digest algorithm prefix.
pub open spec fn sha256_prefix() -> Seq<char> {
    "sha256:"@
}

/// Whether an asset name ends with `.dmg`.
pub open spec fn is_dmg(name: Seq<char>) -> bool {
    has_suffix(name, dmg_suffix())
}

/// The index of the first `.dmg` asset.
pub fn pick_dmg_asset(assets: &[AssetInfo]) -> (r: Result<&AssetInfo, ReleaseError>)
    ensures
        match r {
            Ok(a) => exists|i: int|
                0 <= i < assets@.len() && assets@[i] == *a && is_dmg(assets@[i].name@) && forall|
                    j: int,
                | 0 <= j < i ==> !is_dmg(#[trigger] assets@[j].name@),
            Err(e) => e == ReleaseError::NoDmgAsset && forall|j: int|
                0 <= j < assets@.len() ==> !is_dmg(#[trigger] assets@[j].name@),
        },
{
    let suffix = chars_of(".dmg");
    let mut i: usize = 0;
    while i < assets.len()
        invariant
            i <= assets@.len(),
            suffix@ == dmg_suffix(),
            forall|j: int| 0 <= j < i ==> !is_dmg(#[trigger] assets@[j].name@),
        decreases assets.len() - i,
    {
        let name = chars_of(assets[i].name.as_str());
        if ends_with_chars(&name, &suffix) {
            return Ok(&assets[i]);
        }
        i = i + 1;
    }
    Err(ReleaseError::NoDmgAsset)
}

/// Whether `c` is an ASCII digit.
pub open spec fn is_digit(c: char) -> bool {
    '0' <= c && c <= '9'
}

/// The version named by a tag shaped like `v2.1.0` or `2.1.0`: one optional
/// leading `v` dropped, and what remains starts with a digit; anything else
/// (`latest`, `vnightly`, `v`) is rejected.
pub open spec fn version_of_tag(tag: Seq<char>) -> Option<Seq<char>> {
    if tag.len() > 1 && tag[0] == 'v' && is_digit(tag[1]) {
        Some(tag.subrange(1, tag.len() as int))
    } else if tag.len() > 0 && is_digit(tag[0]) {
        Some(tag)
    } else {
        None
    }
}

/// Strip an optional `v` prefix from a release tag: `v2.1.0` and `2.1.0`
/// both give `2.1.0`; other tags (`latest`, `nightly`) are errors.
pub fn strip_v_prefix(s: &str) -> (r: Result<String, ReleaseError>)
    ensures
        match version_of_tag(s@) {
            Some(v) => r matches Ok(x) && x@ == v,
            None => r matches Err(ReleaseError::BadVersionTag(t)) && t@ == s@,
        },
{
    let t = chars_of(s);
    if t.len() > 1 && t[0] == 'v' && '0' <= t[1] && t[1] <= '9' {
        Ok(string_of(&chars_from(&t, 1)))
    } else if t.len() > 0 && '0' <= t[0] && t[0] <= '9' {
        Ok(string_of(&t))
    } else {
        Err(ReleaseError::BadVersionTag(string_of(&t)))
    }
}

/// Extract the hex part of a `sha256:<hex>` digest; other algorithms are
/// rejected.
pub fn parse_digest(s: &str) -> (r: Result<String, ReleaseError>)
    ensures
        has_prefix(s@, sha256_prefix()) ==> (r matches Ok(x) && x@ == s@.subrange(
            sha256_prefix().len() as int,
            s@.len() as int,
        )),
        !has_prefix(s@, sha256_prefix()) ==> (r matches Err(ReleaseError::UnsupportedDigest(t))
            && t@ == s@),
{
    let t = chars_of(s);
    if starts_with_lit(&t, "sha256:") {
        let p = chars_of("sha256:");
        Ok(string_of(&chars_from(&t, p.len())))
    } else {
        Err(ReleaseError::UnsupportedDigest(string_of(&t)))
    }
}

/// Declares semver's version type so a parsed version can be carried.
#[verifier::external_type_specification]
#[verifier::external_body]
pub struct ExSemverVersion(semver::Version);

/// A semantic version together with the text it was parsed from.
pub struct ParsedVersion {
    text: String,
    version: semver::Version,
}

impl ParsedVersion {
    /// The text this version was parsed from.
    pub closed spec fn source(self) -> Seq<char> {
        self.text@
    }
}

/// What semver's `Version::parse(s)` reports: nothing when it accepts `s`,
/// else the text of its error.
pub uninterp spec fn semver_parse_error(s: Seq<char>) -> Option<Seq<char>>;

/// Whether semver's `Version::parse` accepts `s`.
pub open spec fn semver_accepts(s: Seq<char>) -> bool {
    semver_parse_error(s) is None
}

/// The text of semver's error for `s` (empty when it accepts `s`).
pub open spec fn semver_reason(s: Seq<char>) -> Seq<char> {
    match semver_parse_error(s) {
        Some(m) => m,
        None => Seq::empty(),
    }
}

/// Whether the version parsed by semver from `a` is greater than the one
/// parsed from `b` in semver's ordering.
pub uninterp spec fn semver_greater(a: Seq<char>, b: Seq<char>) -> bool;

/// Calls semver's `Version::parse(s)`, its error turned into its text (its
/// `Display`). Claimed: the outcome is `semver_parse_error(s)`: success
/// exactly when that is `None`, else that error text; the parsed version
/// keeps `s` as its source text.
#[verifier::external_body]
fn parse_semver(s: &str) -> (r: Result<ParsedVersion, String>)
    ensures
        match r {
            Ok(v) => semver_parse_error(s@) is None && v.source() == s@,
            Err(m) => semver_parse_error(s@) == Some(m@),
        },
{
    match semver::Version::parse(s) {
        Ok(version) => Ok(ParsedVersion { text: s.to_string(), version }),
        Err(e) => Err(e.to_string()),
    }
}

/// Compares two parsed versions with semver's `>` (its derived total
/// order). Claimed: the result is `semver_greater` of their source texts, and
/// a version is never greater than one parsed from the same text.
#[verifier::external_body]
fn version_greater(a: &ParsedVersion, b: &ParsedVersion) -> (r: bool)
    ensures
        r == semver_greater(a.source(), b.source()),
        a.source() == b.source() ==> !r,
{
    a.version > b.version
}

/// The version of this build, parsed.
pub fn current_version() -> (r: Result<ParsedVersion, ReleaseError>)
    ensures
        r is Ok <==> semver_accepts(CURRENT_VERSION@),
        r matches Ok(v) ==> v.source() == CURRENT_VERSION@,
        r matches Err(e) ==> e matches ReleaseError::InvalidBuildVersion { cause } && cause@
            == semver_reason(CURRENT_VERSION@),
{
    match parse_semver(CURRENT_VERSION) {
        Ok(v) => Ok(v),
        Err(cause) => Err(ReleaseError::InvalidBuildVersion { cause }),
    }
}

/// Whether the release tagged `release_tag` is strictly newer than this
/// build. Equal versions are not newer.
pub fn is_newer_than_current(release_tag: &str) -> (r: Result<bool, ReleaseError>)
    ensures
        match version_of_tag(release_tag@) {
            None => r matches Err(ReleaseError::BadVersionTag(t)) && t@ == release_tag@,
            Some(v) => if !semver_accepts(v) {
                r matches Err(ReleaseError::InvalidVersion { tag, cause }) && tag@ == release_tag@
                    && cause@ == semver_reason(v)
            } else if !semver_accepts(CURRENT_VERSION@) {
                r matches Err(ReleaseError::InvalidBuildVersion { cause }) && cause@
                    == semver_reason(CURRENT_VERSION@)
            } else {
                r == Ok::<bool, ReleaseError>(semver_greater(v, CURRENT_VERSION@))
            },
        },
        version_of_tag(release_tag@) == Some(CURRENT_VERSION@) ==> !(r matches Ok(true)),
{
    let stripped = strip_v_prefix(release_tag)?;
    let release = match parse_semver(stripped.as_str()) {
        Ok(v) => v,
        Err(cause) => return Err(
            ReleaseError::InvalidVersion { tag: string_of(&chars_of(release_tag)), cause },
        ),
    };
    let current = match current_version() {
        Ok(v) => v,
        Err(e) => return Err(e),
    };
    Ok(version_greater(&release, &current))
}

/// The one-line description of a release error.
pub open spec fn release_error_text(e: ReleaseError) -> Seq<char> {
    match e {
        ReleaseError::NoDmgAsset => "no .dmg asset in the latest release"@,
        ReleaseError::BadVersionTag(t) => "expected a version tag like 'v2.1.0' or '2.1.0', got: "@
            + t@,
        ReleaseError::UnsupportedDigest(t) => "unsupported digest algorithm in '"@ + t@ + "'"@,
        ReleaseError::InvalidVersion { tag, cause } => invalid_version_text(tag@, cause@),
        ReleaseError::InvalidBuildVersion { cause } => invalid_build_version_text(cause@),
    }
}

/// The text of a release version semver rejects: what was being parsed,
/// then semver's reason.
pub open spec fn invalid_version_text(tag: Seq<char>, cause: Seq<char>) -> Seq<char> {
    "parsing release version '"@ + tag + "': "@ + cause
}

/// The text of this build's own version being rejected by semver.
pub open spec fn invalid_build_version_text(cause: Seq<char>) -> Seq<char> {
    "parsing the build's own CARGO_PKG_VERSION: "@ + cause
}

impl ReleaseError {
    /// A one-line description of the error.
    pub fn message(&self) -> (r: String)
        ensures
            r@ == release_error_text(*self),
    {
        let mut out: Vec<char> = Vec::new();
        match self {
            ReleaseError::NoDmgAsset => {
                push_lit(&mut out, "no .dmg asset in the latest release");
            },
            ReleaseError::BadVersionTag(t) => {
                push_lit(&mut out, "expected a version tag like 'v2.1.0' or '2.1.0', got: ");
                push_chars(&mut out, &chars_of(t.as_str()));
            },
            ReleaseError::UnsupportedDigest(t) => {
                push_lit(&mut out, "unsupported digest algorithm in '");
                push_chars(&mut out, &chars_of(t.as_str()));
                push_lit(&mut out, "'");
            },
            ReleaseError::InvalidBuildVersion { cause } => {
                push_lit(&mut out, "parsing the build's own CARGO_PKG_VERSION: ");
                push_chars(&mut out, &chars_of(cause.as_str()));
            },
            ReleaseError::InvalidVersion { tag, cause } => {
                push_lit(&mut out, "parsing release version '");
                push_chars(&mut out, &chars_of(tag.as_str()));
                push_lit(&mut out, "': ");
                push_chars(&mut out, &chars_of(cause.as_str()));
            },
        }
        proof {
            match self {
                ReleaseError::BadVersionTag(t) => {
                    assert(out@ =~= release_error_text(*self));
                },
                ReleaseError::UnsupportedDigest(t) => {
                    assert(out@ =~= release_error_text(*self));
                },
                ReleaseError::InvalidVersion { .. } => {
                    assert(out@ =~= release_error_text(*self));
                },
                _ => {
                    assert(out@ =~= release_error_text(*self));
                },
            }
        }
        string_of(&out)
    }
}

} // verus!
