//! The calls this library makes into other crates. Each stands behind one
//! function whose contract is assumed, not proved; what such a call returns
//! is named by a specification function without a body where it cannot be
//! stated in a few lines.

use crate::versions::SemVer;
use std::cmp::Ordering;
use vstd::prelude::*;

verus! {

/// The error of `semver`, carried through as it comes; nothing is assumed
/// of what it holds.
#[verifier::external_type_specification]
#[verifier::external_body]
pub struct ExSemverError(semver::Error);

/// The error of `regex`, carried through as it comes; nothing is assumed of
/// what it holds.
#[verifier::external_type_specification]
#[verifier::external_body]
pub struct ExRegexError(regex::Error);

/// The error of `serde_json`, carried through as it comes; nothing is
/// assumed of what it holds.
#[verifier::external_type_specification]
#[verifier::external_body]
pub struct ExJsonError(serde_json::Error);

/// The cursor of `std::io` over bytes in memory, carried through as it
/// comes.
#[verifier::external_type_specification]
#[verifier::external_body]
#[verifier::reject_recursive_types(T)]
pub struct ExCursor<T>(std::io::Cursor<T>);

/// The archive reader of `zip`, carried through as it comes; what it holds
/// is named by [`zip_names`] and [`zip_opens`].
#[verifier::external_type_specification]
#[verifier::external_body]
#[verifier::reject_recursive_types(R)]
pub struct ExZipArchive<R>(zip::ZipArchive<R>);

/// The error of `zip`, carried through as it comes; nothing is assumed of
/// what it holds.
#[verifier::external_type_specification]
#[verifier::external_body]
pub struct ExZipError(zip::result::ZipError);

/// The names of the entries of a zip archive, in the order of the archive's
/// directory.
pub uninterp spec fn zip_names(archive: zip::ZipArchive<std::io::Cursor<Vec<u8>>>) -> Seq<Seq<char>>;

/// For each entry of a zip archive, in the order of the archive's
/// directory, whether `zip::ZipArchive::by_index` opens it.
pub uninterp spec fn zip_opens(archive: zip::ZipArchive<std::io::Cursor<Vec<u8>>>) -> Seq<bool>;

/// Whether a name ends in a separator, which is how `zip` tells a directory
/// from a file.
pub open spec fn names_directory(name: Seq<char>) -> bool {
    name.len() > 0 && (name.last() == '/' || name.last() == '\\')
}

/// What `semver::Version::parse` makes of a text: nothing where it rejects
/// the text, else the major, minor and patch numbers, the pre-release tag and
/// the build metadata.
pub uninterp spec fn semver_parse(text: Seq<char>) -> Option<(u64, u64, u64, Seq<char>, Seq<char>)>;

/// Whether `semver::VersionReq::parse` accepts a text as a requirement.
pub uninterp spec fn semver_req_valid(req: Seq<char>) -> bool;

/// Whether the requirement written `req` admits the version written
/// `version`, as `semver::VersionReq::matches` decides it.
pub uninterp spec fn semver_req_matches(req: Seq<char>, version: Seq<char>) -> bool;

/// How the version written `a` stands to the one written `b` in the order of
/// `semver::Version`: negative where it comes first, zero where neither
/// comes first, positive where it comes last.
pub uninterp spec fn semver_precedence(a: Seq<char>, b: Seq<char>) -> int;

/// What `regex::Regex::captures` finds in `text` for the expression written
/// `pattern`: nothing where the expression does not compile; else nothing
/// where the text does not match; else the text of each group, the whole
/// match first, with nothing for a group that took no part.
pub uninterp spec fn regex_groups(pattern: Seq<char>, text: Seq<char>) -> Option<
    Option<Seq<Option<Seq<char>>>>,
>;

/// What `serde_json` reads under `key` in the JSON document `raw`: nothing
/// where `raw` is no JSON document; else nothing where the document is no
/// object, has no such member, or the member is no string; else the
/// member's text.
pub uninterp spec fn json_string_member(raw: Seq<char>, key: Seq<char>) -> Option<
    Option<Seq<char>>,
>;

/// The text that `serde_json::to_string_pretty` writes for the object with
/// the one member `key`, a string of value `value`; nothing where it fails.
pub uninterp spec fn json_object_text(key: Seq<char>, value: Seq<char>) -> Option<Seq<char>>;

/// The number that stands for an ordering.
pub open spec fn sign_of(o: Ordering) -> int {
    match o {
        Ordering::Less => -1,
        Ordering::Equal => 0,
        Ordering::Greater => 1,
    }
}

/// The texts of captured groups.
pub open spec fn group_texts(groups: Seq<Option<String>>) -> Seq<Option<Seq<char>>> {
    Seq::new(
        groups.len(),
        |i: int|
            match groups[i] {
                Some(s) => Some(s@),
                None => None,
            },
    )
}

/// Calls `semver::Version::parse` and hands out the fields of the version
/// together with the text that its `Display` writes. Assumed: the call
/// succeeds exactly where [`semver_parse`] says so, and yields those fields;
/// the text written is the text parsed, since the parser accepts only the
/// canonical form.
#[verifier::external_body]
pub(crate) fn parse_version(text: &str) -> (r: Result<SemVer, semver::Error>)
    ensures
        r is Ok <==> semver_parse(text@) is Some,
        r is Ok ==> r->Ok_0@ == semver_parse(text@)->Some_0,
        r is Ok ==> r->Ok_0.text@ == text@,
{
    let v = semver::Version::parse(text)?;
    Ok(
        SemVer {
            major: v.major,
            minor: v.minor,
            patch: v.patch,
            pre: v.pre.as_str().to_string(),
            build: v.build.as_str().to_string(),
            text: v.to_string(),
        },
    )
}

/// Calls `semver::VersionReq::parse`. Assumed: it succeeds exactly where
/// [`semver_req_valid`] says so.
#[verifier::external_body]
pub(crate) fn parse_requirement(req: &str) -> (r: Result<(), semver::Error>)
    ensures
        r is Ok <==> semver_req_valid(req@),
{
    semver::VersionReq::parse(req).map(|_| ())
}

/// Calls `semver::VersionReq::matches` on the requirement and the version
/// that the two texts parse to. Assumed: it fails exactly where one of the
/// texts does not parse, and else answers as [`semver_req_matches`] says.
#[verifier::external_body]
pub(crate) fn requirement_matches(req: &str, version: &str) -> (r: Result<bool, semver::Error>)
    ensures
        r is Ok <==> (semver_req_valid(req@) && semver_parse(version@) is Some),
        r is Ok ==> r->Ok_0 == semver_req_matches(req@, version@),
{
    let req = semver::VersionReq::parse(req)?;
    let version = semver::Version::parse(version)?;
    Ok(req.matches(&version))
}

/// Compares, with `Ord::cmp` of `semver::Version`, the versions that the two
/// texts parse to. Assumed: it fails exactly where one of the texts does not
/// parse, and else answers as [`semver_precedence`] says; and, as of every
/// total order, the answer turns round with the arguments, and what is not
/// after `a` is not after `b` where `a` is not after `b`.
#[verifier::external_body]
pub(crate) fn version_order(a: &str, b: &str) -> (r: Result<Ordering, semver::Error>)
    ensures
        r is Ok <==> (semver_parse(a@) is Some && semver_parse(b@) is Some),
        r is Ok ==> semver_precedence(a@, b@) == sign_of(r->Ok_0),
        r is Ok ==> semver_precedence(b@, a@) == -sign_of(r->Ok_0),
        (r is Ok && sign_of(r->Ok_0) <= 0) ==> forall|c: Seq<char>|
            (semver_parse(c) is Some && #[trigger] semver_precedence(c, a@) <= 0)
                ==> semver_precedence(c, b@) <= 0,
{
    let a = semver::Version::parse(a)?;
    let b = semver::Version::parse(b)?;
    Ok(a.cmp(&b))
}

/// How the version written `a` stands to the one written `b`, as a number:
/// -1, 0 or 1. Proved from what is assumed of [`version_order`].
pub(crate) fn version_sign(a: &str, b: &str) -> (r: Result<i8, semver::Error>)
    ensures
        r is Ok <==> (semver_parse(a@) is Some && semver_parse(b@) is Some),
        r is Ok ==> -1 <= r->Ok_0 <= 1,
        r is Ok ==> semver_precedence(a@, b@) == r->Ok_0,
        r is Ok ==> semver_precedence(b@, a@) == -r->Ok_0,
        (r is Ok && r->Ok_0 <= 0) ==> forall|c: Seq<char>|
            (semver_parse(c) is Some && #[trigger] semver_precedence(c, a@) <= 0)
                ==> semver_precedence(c, b@) <= 0,
{
    match version_order(a, b) {
        Ok(Ordering::Less) => Ok(-1i8),
        Ok(Ordering::Equal) => Ok(0i8),
        Ok(Ordering::Greater) => Ok(1i8),
        Err(e) => Err(e),
    }
}

/// The message of a `semver::Error`, as its `Display` writes it.
#[verifier::external_body]
pub(crate) fn semver_error_text(e: &semver::Error) -> (r: String) {
    e.to_string()
}

/// Compiles `pattern` with `regex::Regex::new` and calls `captures` on
/// `text`. Assumed: the outcome is the one that [`regex_groups`] names.
#[verifier::external_body]
pub(crate) fn regex_captures(pattern: &str, text: &str) -> (r: Result<
    Option<Vec<Option<String>>>,
    regex::Error,
>)
    ensures
        r is Ok <==> regex_groups(pattern@, text@) is Some,
        r matches Ok(found) ==> (found is Some <==> regex_groups(pattern@, text@)->Some_0 is Some),
        r matches Ok(Some(groups)) ==> group_texts(groups@) == regex_groups(
            pattern@,
            text@,
        )->Some_0->Some_0,
{
    let re = regex::Regex::new(pattern)?;
    Ok(re.captures(text).map(|c| c.iter().map(|m| m.map(|m| m.as_str().to_string())).collect()))
}

/// Parses `raw` with `serde_json::from_str` and looks up `key` with
/// `Value::get` and `Value::as_str`. Assumed: the outcome is the one that
/// [`json_string_member`] names.
#[verifier::external_body]
pub(crate) fn read_json_string_member(raw: &str, key: &str) -> (r: Result<
    Option<String>,
    serde_json::Error,
>)
    ensures
        r is Ok <==> json_string_member(raw@, key@) is Some,
        r matches Ok(found) ==> (found is Some <==> json_string_member(raw@, key@)->Some_0 is Some),
        r matches Ok(Some(value)) ==> value@ == json_string_member(raw@, key@)->Some_0->Some_0,
{
    let document: serde_json::Value = serde_json::from_str(raw)?;
    Ok(document.get(key).and_then(|v| v.as_str()).map(|s| s.to_string()))
}

/// Writes, with `serde_json::to_string_pretty`, the object whose one member
/// `key` is the string `value`. Assumed: the outcome is the one that
/// [`json_object_text`] names.
#[verifier::external_body]
pub(crate) fn write_json_object(key: &str, value: &str) -> (r: Result<String, serde_json::Error>)
    ensures
        r is Ok <==> json_object_text(key@, value@) is Some,
        r is Ok ==> r->Ok_0@ == json_object_text(key@, value@)->Some_0,
{
    let mut object = serde_json::Map::new();
    object.insert(key.to_string(), serde_json::Value::String(value.to_string()));
    serde_json::to_string_pretty(&serde_json::Value::Object(object))
}

/// The message of a `serde_json::Error`, as its `Display` writes it.
#[verifier::external_body]
pub(crate) fn json_error_text(e: &serde_json::Error) -> (r: String) {
    e.to_string()
}

/// Calls `zip::ZipArchive::len`. Assumed: it answers with the number of
/// the archive's entries.
#[verifier::external_body]
pub(crate) fn zip_len(archive: &zip::ZipArchive<std::io::Cursor<Vec<u8>>>) -> (n: usize)
    ensures
        n == zip_names(*archive).len(),
{
    archive.len()
}

/// Calls `zip::ZipArchive::by_index` and hands out the name of the entry and
/// whether it is a directory, as `ZipFile::name` and `ZipFile::is_dir` say.
/// Assumed: the call leaves the archive's entries as they are, and whether
/// each opens; it succeeds exactly where the index is that of an entry that
/// opens, which the archive alone decides; where it succeeds, the name is
/// that entry's name, and the entry is a directory exactly where its name
/// ends in a separator.
#[verifier::external_body]
pub(crate) fn zip_entry(
    archive: &mut zip::ZipArchive<std::io::Cursor<Vec<u8>>>,
    index: usize,
) -> (r: Result<(String, bool), zip::result::ZipError>)
    ensures
        zip_names(*final(archive)) == zip_names(*old(archive)),
        zip_opens(*final(archive)) == zip_opens(*old(archive)),
        zip_opens(*old(archive)).len() == zip_names(*old(archive)).len(),
        r is Ok <==> (index < zip_names(*old(archive)).len() && zip_opens(
            *old(archive),
        )[index as int]),
        r is Ok ==> r->Ok_0.0@ == zip_names(*old(archive))[index as int],
        r is Ok ==> r->Ok_0.1 == names_directory(r->Ok_0.0@),
{
    let file = archive.by_index(index)?;
    Ok((file.name().to_string(), file.is_dir()))
}

/// The message of a `zip` error, as its `Display` writes it.
#[verifier::external_body]
pub(crate) fn zip_error_text(e: &zip::result::ZipError) -> (r: String) {
    e.to_string()
}

} // verus!
