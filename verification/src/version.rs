//! Version numbers: the leading `v` of release tags, semantic-version parsing
//! and precedence through the `semver` crate, and the "is there an update" test.

use vstd::prelude::*;
use vstd::string::StrSliceExecFns;

verus! {

/// The characters of `version` without one leading `v`, if it has one.
pub open spec fn strip_v_spec(version: Seq<char>) -> Seq<char> {
    if version.len() > 0 && version[0] == 'v' {
        version.drop_first()
    } else {
        version
    }
}

/// Removes one leading `v` from a version string (`"v1.2.3"` becomes `"1.2.3"`).
pub fn strip_v_prefix(version: &str) -> (r: &str)
    ensures
        r@ == strip_v_spec(version@),
{
    let n = version.unicode_len();
    if n > 0 && version.get_char(0) == 'v' {
        version.substring_char(1, n)
    } else {
        version
    }
}

#[verifier::external_type_specification]
#[verifier::external_body]
pub struct ExVersion(semver::Version);

/// A version accepted by `semver::Version::parse`.
///
/// The plain fields are copies of the parsed version's major, minor and patch
/// numbers and of the text of its pre-release and build-metadata parts; the
/// parsed value itself is kept for precedence comparisons. Values of this type
/// are only made by `parse_semver`, which fills both from the same parse.
pub struct SemVer {
    major: u64,
    minor: u64,
    patch: u64,
    pre: String,
    build: String,
    parsed: semver::Version,
}

impl View for SemVer {
    type V = (u64, u64, u64, Seq<char>, Seq<char>);

    closed spec fn view(&self) -> (u64, u64, u64, Seq<char>, Seq<char>) {
        (self.major, self.minor, self.patch, self.pre@, self.build@)
    }
}

/// What `semver::Version::parse` makes of a text: `None` where it returns an
/// error, else the major, minor and patch numbers and the pre-release and
/// build-metadata text of the version.
pub uninterp spec fn semver_parse(text: Seq<char>) -> Option<(u64, u64, u64, Seq<char>, Seq<char>)>;

/// How `semver` orders two versions whose major, minor and patch numbers are
/// equal, whose pre-release parts are both empty or both non-empty, and whose
/// pre-release or build-metadata parts differ: whether the first (pre-release,
/// build) pair precedes the second (identifier-by-identifier comparison).
pub uninterp spec fn semver_suffix_lt(
    a_pre: Seq<char>,
    a_build: Seq<char>,
    b_pre: Seq<char>,
    b_build: Seq<char>,
) -> bool;

/// Precedence of `semver::Version` (its derived `Ord`): major, then minor,
/// then patch number; a version without pre-release ranks above one with a
/// pre-release; equal parts give equal versions; the remaining cases are
/// decided by the pre-release and build identifiers.
pub open spec fn version_lt(
    a: (u64, u64, u64, Seq<char>, Seq<char>),
    b: (u64, u64, u64, Seq<char>, Seq<char>),
) -> bool {
    if a.0 != b.0 {
        a.0 < b.0
    } else if a.1 != b.1 {
        a.1 < b.1
    } else if a.2 != b.2 {
        a.2 < b.2
    } else if a.3 == b.3 && a.4 == b.4 {
        false
    } else if a.3 != b.3 && a.3.len() == 0 {
        false
    } else if a.3 != b.3 && b.3.len() == 0 {
        true
    } else {
        semver_suffix_lt(a.3, a.4, b.3, b.4)
    }
}

/// Parses `text` with `semver::Version::parse`.
///
/// Trusted: the result is `None` exactly where the parse fails, and otherwise
/// carries the parsed version's numbers and pre-release and build text, as the
/// name `semver_parse` records. What `semver` accepts is not spelled out here.
#[verifier::external_body]
fn parse_semver(text: &str) -> (r: Option<SemVer>)
    ensures
        semver_parse(text@) == match r {
            Some(v) => Some(v@),
            None => None,
        },
{
    match semver::Version::parse(text) {
        Ok(v) => Some(SemVer {
            major: v.major,
            minor: v.minor,
            patch: v.patch,
            pre: v.pre.as_str().to_string(),
            build: v.build.as_str().to_string(),
            parsed: v,
        }),
        Err(_) => None,
    }
}

/// Compares two parsed versions with `<` of `semver::Version`.
///
/// Trusted: the derived `Ord` of `semver::Version` compares major, minor,
/// patch, then `Prerelease` (empty ranks highest), then `BuildMetadata`;
/// equal texts compare equal; and `Ord` is asymmetric and transitive (stated
/// here against every version that parses). The identifier-wise
/// comparison of differing pre-release or build texts is left to the name
/// `semver_suffix_lt`.
#[verifier::external_body]
fn precedes(a: &SemVer, b: &SemVer) -> (r: bool)
    ensures
        r == version_lt(a@, b@),
        r ==> !version_lt(b@, a@),
        r ==> forall|t: Seq<char>|
            #[trigger] semver_parse(t) is Some && version_lt(b@, semver_parse(t)->0) ==> version_lt(
                a@,
                semver_parse(t)->0,
            ),
        a@.0 == b@.0 && a@.1 == b@.1 && a@.2 == b@.2 && (a@.3 != b@.3 || a@.4 != b@.4) && (a@.3.len()
            == 0) == (b@.3.len() == 0) ==> r == semver_suffix_lt(a@.3, a@.4, b@.3, b@.4),
{
    a.parsed < b.parsed
}

/// Whether `latest` is a newer version than `current`, each with an optional
/// leading `v`: false unless both parse as semantic versions.
pub open spec fn newer_spec(current: Seq<char>, latest: Seq<char>) -> bool {
    match (semver_parse(strip_v_spec(current)), semver_parse(strip_v_spec(latest))) {
        (Some(c), Some(l)) => version_lt(c, l),
        _ => false,
    }
}

/// Returns true when `latest` is a higher version than `current`; a version
/// that does not parse gives false.
pub fn is_newer(current: &str, latest: &str) -> (r: bool)
    ensures
        r == newer_spec(current@, latest@),
        r ==> !newer_spec(latest@, current@),
        r ==> forall|third: Seq<char>|
            #[trigger] newer_spec(latest@, third) ==> newer_spec(current@, third),
{
    let cur = parse_semver(strip_v_prefix(current));
    let lat = parse_semver(strip_v_prefix(latest));
    match (cur, lat) {
        (Some(c), Some(l)) => {
            let r = precedes(&c, &l);
            proof {
                if r {
                    assert forall|third: Seq<char>| #[trigger]
                        newer_spec(latest@, third) implies newer_spec(current@, third) by {
                        let t = strip_v_spec(third);
                        let v = semver_parse(t)->0;
                        assert(semver_parse(strip_v_spec(latest@)) == Some(l@));
                        assert(semver_parse(strip_v_spec(current@)) == Some(c@));
                        assert(semver_parse(t) is Some && version_lt(l@, v));
                        assert(version_lt(c@, v));
                    }
                }
            }
            r
        },
        _ => false,
    }
}

/// A version is never newer than itself.
pub proof fn law_same_version_not_newer(version: Seq<char>)
    ensures
        !newer_spec(version, version),
{
}

/// A version text that does not parse (after dropping one leading `v`) never
/// reports an update, on either side of the comparison.
pub proof fn law_unparsable_never_newer(bad: Seq<char>, other: Seq<char>)
    requires
        semver_parse(strip_v_spec(bad)) is None,
    ensures
        !newer_spec(bad, other),
        !newer_spec(other, bad),
{
}

/// One leading `v` on either version makes no difference to the comparison.
pub proof fn law_v_prefix_ignored(current: Seq<char>, latest: Seq<char>)
    requires
        !(current.len() > 0 && current[0] == 'v'),
        !(latest.len() > 0 && latest[0] == 'v'),
    ensures
        newer_spec(seq!['v'] + current, latest) == newer_spec(current, latest),
        newer_spec(current, seq!['v'] + latest) == newer_spec(current, latest),
{
    assert((seq!['v'] + current).drop_first() =~= current);
    assert((seq!['v'] + latest).drop_first() =~= latest);
}

/// Versions that differ in their major, minor or patch number are ordered by
/// those numbers alone, whatever their pre-release or build parts.
pub proof fn law_release_numbers_decide(
    a: (u64, u64, u64, Seq<char>, Seq<char>),
    b: (u64, u64, u64, Seq<char>, Seq<char>),
)
    requires
        (a.0, a.1, a.2) != (b.0, b.1, b.2),
    ensures
        version_lt(a, b) == (a.0 < b.0 || (a.0 == b.0 && a.1 < b.1) || (a.0 == b.0 && a.1 == b.1
            && a.2 < b.2)),
        version_lt(a, b) != version_lt(b, a),
{
}

/// For two version texts that both parse (after one leading `v` is dropped),
/// the answer of `is_newer` is semver precedence: whenever the release numbers
/// differ they alone decide, whatever the pre-release or build parts (so
/// `2.7.0-rc.1` is newer than `2.6.4`); with equal numbers a release is newer
/// than any pre-release of it and never older; equal versions are never newer.
pub proof fn law_newer_is_semver_precedence(
    current: Seq<char>,
    latest: Seq<char>,
    c: (u64, u64, u64, Seq<char>, Seq<char>),
    l: (u64, u64, u64, Seq<char>, Seq<char>),
)
    requires
        semver_parse(strip_v_spec(current)) == Some(c),
        semver_parse(strip_v_spec(latest)) == Some(l),
    ensures
        (c.0, c.1, c.2) != (l.0, l.1, l.2) ==> newer_spec(current, latest) == (c.0 < l.0 || (c.0
            == l.0 && c.1 < l.1) || (c.0 == l.0 && c.1 == l.1 && c.2 < l.2)),
        (c.0, c.1, c.2) == (l.0, l.1, l.2) && c.3.len() > 0 && l.3.len() == 0 ==> newer_spec(
            current,
            latest,
        ),
        (c.0, c.1, c.2) == (l.0, l.1, l.2) && c.3.len() == 0 && l.3.len() > 0 ==> !newer_spec(
            current,
            latest,
        ),
        c == l ==> !newer_spec(current, latest),
{
}

} // verus!
