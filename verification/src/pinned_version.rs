//! Pin records: the version that a project fixes for itself, found by
//! walking from a directory up to the root.

use crate::foreign;
use crate::manifest;
use crate::paths;
use crate::paths::TreePath;
use crate::paths::TreePathView;
use vstd::prelude::*;

verus! {

/// The file system as the search for a pin record needs it.
pub trait PinFileSystem {
    /// Whether a file stands at `path`.
    fn file_exists(&self, path: &TreePath) -> bool;

    /// The text of the file at `path`, or why it cannot be read.
    fn read_to_string(&self, path: &TreePath) -> Result<String, String>;
}

/// Where an active version comes from.
#[derive(Debug, Clone, Copy, PartialEq, Eq, Structural)]
pub enum VersionSource {
    /// The project's pin record.
    Pin,
    /// A directive of the project's module manifest.
    Manifest,
    /// The global default.
    Default,
}

/// What a look at one file found.
#[derive(Debug, Clone, PartialEq, Eq)]
pub enum FileProbe {
    /// No file is there.
    Absent,
    /// A file is there and cannot be read.
    Unreadable { reason: String },
    /// A file is there, with this text.
    Present { content: String },
}

/// What a look at one file found, as a value.
pub enum Seen {
    Absent,
    Unreadable(Seq<char>),
    Present(Seq<char>),
}

impl View for FileProbe {
    type V = Seen;

    open spec fn view(&self) -> Seen {
        match self {
            FileProbe::Absent => Seen::Absent,
            FileProbe::Unreadable { reason } => Seen::Unreadable(reason@),
            FileProbe::Present { content } => Seen::Present(content@),
        }
    }
}

/// What was found in one directory: its pin record and its manifest.
pub struct LevelSeen {
    pub pin: Seen,
    pub manifest: Seen,
}

/// Why no version could be determined.
#[derive(Debug, Clone, PartialEq, Eq)]
pub enum ResolveError {
    /// Neither a pin, nor a manifest directive, nor a default names a version.
    NotActive,
    /// What had to be read could not be read; the reason is the one that the
    /// reading gave.
    Unreadable { reason: String },
    /// A pin record is there and is no JSON document.
    CorruptPin { reason: String },
}

/// Why no version could be determined, without the wording.
pub enum Failure {
    NotActive,
    Unreadable(Seq<char>),
    CorruptPin,
}

impl View for ResolveError {
    type V = Failure;

    open spec fn view(&self) -> Failure {
        match self {
            ResolveError::NotActive => Failure::NotActive,
            ResolveError::Unreadable { reason } => Failure::Unreadable(reason@),
            ResolveError::CorruptPin { reason } => Failure::CorruptPin,
        }
    }
}

/// What one directory contributes to the search.
#[derive(Debug, Clone, PartialEq, Eq)]
pub enum LevelDecision {
    /// The directory names the version.
    Hit { version: String, source: VersionSource },
    /// The directory has a pin record that names no version: the search ends
    /// here without a version.
    Boundary,
    /// The directory says nothing: the search goes on with its parent.
    Next,
    /// The search fails.
    Fail(ResolveError),
}

/// What one directory contributes to the search, as a value.
pub enum LevelResult {
    Hit(Seq<char>, VersionSource),
    Boundary,
    Next,
    Fail(Failure),
}

impl View for LevelDecision {
    type V = LevelResult;

    open spec fn view(&self) -> LevelResult {
        match self {
            LevelDecision::Hit { version, source } => LevelResult::Hit(version@, *source),
            LevelDecision::Boundary => LevelResult::Boundary,
            LevelDecision::Next => LevelResult::Next,
            LevelDecision::Fail(e) => LevelResult::Fail(e@),
        }
    }
}

/// The version that a pin record names: nothing where the record is no JSON
/// document; else the text of its member `go`, where that is a string and
/// not empty.
pub open spec fn pin_version_of(raw: Seq<char>) -> Option<Option<Seq<char>>> {
    match foreign::json_string_member(raw, "go"@) {
        None => None,
        Some(None) => Some(None),
        Some(Some(v)) => if v.len() == 0 {
            Some(None)
        } else {
            Some(Some(v))
        },
    }
}

/// The version that a directory's manifest asks for.
pub open spec fn manifest_at(seen: Seen) -> Result<Option<Seq<char>>, Failure> {
    match seen {
        Seen::Absent => Ok(None),
        Seen::Unreadable(reason) => Err(Failure::Unreadable(reason)),
        Seen::Present(content) => Ok(manifest::manifest_version_of(content)),
    }
}

/// What a directory without a version in its pin record contributes: the
/// version of its manifest, or else `otherwise`.
pub open spec fn manifest_or(seen: Seen, otherwise: LevelResult) -> LevelResult {
    match manifest_at(seen) {
        Err(f) => LevelResult::Fail(f),
        Ok(Some(v)) => LevelResult::Hit(v, VersionSource::Manifest),
        Ok(None) => otherwise,
    }
}

/// What one directory contributes to the search. A pin record that names a
/// version decides. A pin record that names none ends the search at this
/// directory, after its manifest has had its say. A pin record that cannot
/// be read or understood fails the search. Without a pin record the
/// manifest decides, and says nothing where it asks for no version.
pub open spec fn level_result(level: LevelSeen) -> LevelResult {
    match level.pin {
        Seen::Unreadable(reason) => LevelResult::Fail(Failure::Unreadable(reason)),
        Seen::Present(content) => match pin_version_of(content) {
            None => LevelResult::Fail(Failure::CorruptPin),
            Some(Some(v)) => LevelResult::Hit(v, VersionSource::Pin),
            Some(None) => manifest_or(level.manifest, LevelResult::Boundary),
        },
        Seen::Absent => manifest_or(level.manifest, LevelResult::Next),
    }
}

/// What a walk through directories, nearest first, comes to: the
/// contribution of the first directory that does not pass.
pub open spec fn walk(levels: Seq<LevelSeen>) -> LevelResult
    decreases levels.len(),
{
    if levels.len() == 0 {
        LevelResult::Next
    } else {
        match walk(levels.drop_last()) {
            LevelResult::Next => level_result(levels.last()),
            decided => decided,
        }
    }
}

/// How many directories a walk passes before one decides.
pub open spec fn levels_passed(levels: Seq<LevelSeen>) -> nat
    decreases levels.len(),
{
    if levels.len() == 0 {
        0
    } else if walk(levels.drop_last()) is Next {
        (levels.len() - 1) as nat
    } else {
        levels_passed(levels.drop_last())
    }
}

/// The pin that a walk from `start` finds: the version and the pin record
/// that names it.
pub open spec fn pin_found(start: TreePathView, levels: Seq<LevelSeen>) -> Result<
    Option<(Seq<char>, TreePathView)>,
    Failure,
> {
    match walk(levels) {
        LevelResult::Hit(v, _) => Ok(
            Some((v, start.ancestor(levels_passed(levels)).join(paths::pin_name()))),
        ),
        LevelResult::Fail(f) => Err(f),
        _ => Ok(None),
    }
}

/// The value of a search result.
pub open spec fn pinned_view(r: Result<Option<(String, TreePath)>, ResolveError>) -> Result<
    Option<(Seq<char>, TreePathView)>,
    Failure,
> {
    match r {
        Ok(Some((v, p))) => Ok(Some((v@, p@))),
        Ok(None) => Ok(None),
        Err(e) => Err(e@),
    }
}

/// Whether `found` is an answer of `fs` to a look at `path`: the file is
/// absent where `fs` says it does not exist, and else is what reading it
/// gives.
pub open spec fn may_probe<F: PinFileSystem>(fs: &F, path: &TreePath, found: FileProbe) -> bool {
    match found {
        FileProbe::Absent => call_ensures(F::file_exists, (fs, path), false),
        FileProbe::Unreadable { reason } => call_ensures(F::file_exists, (fs, path), true)
            && call_ensures(F::read_to_string, (fs, path), Err(reason)),
        FileProbe::Present { content } => call_ensures(F::file_exists, (fs, path), true)
            && call_ensures(F::read_to_string, (fs, path), Ok(content)),
    }
}

/// Whether `seen` is an answer of `fs` to a look at the file `file`.
pub open spec fn may_see<F: PinFileSystem>(fs: &F, file: TreePathView, seen: Seen) -> bool {
    exists|path: TreePath, found: FileProbe|
        path@ == file && found@ == seen && #[trigger] may_probe(fs, &path, found)
}

/// Whether `levels` is what a search for pins alone finds on the way from
/// `start` towards the root, with `r` as its result: each level is an
/// answer of `fs` to a look at the pin record of the directory that many
/// steps up, and `r` is what the walk over the levels comes to. A walk in
/// which no directory decides has looked at every directory up to the root.
pub open spec fn explains_pin<F: PinFileSystem>(
    fs: &F,
    start: TreePathView,
    levels: Seq<LevelSeen>,
    r: Result<Option<(Seq<char>, TreePathView)>, Failure>,
) -> bool {
    &&& 0 < levels.len() <= start.names.len() + 1
    &&& walk(levels) is Next ==> levels.len() == start.names.len() + 1
    &&& forall|i: int|
        0 <= i < levels.len() ==> (#[trigger] levels[i]).manifest == Seen::Absent && may_see(
            fs,
            start.ancestor(i as nat).join(paths::pin_name()),
            levels[i].pin,
        )
    &&& r == pin_found(start, levels)
}

/// Looks at the file at `path`: asks `fs` whether it exists and, where it
/// does, for its text.
pub fn probe<F: PinFileSystem>(fs: &F, path: &TreePath) -> (r: FileProbe)
    ensures
        may_probe(fs, path, r),
{
    if fs.file_exists(path) {
        match fs.read_to_string(path) {
            Ok(content) => FileProbe::Present { content },
            Err(reason) => FileProbe::Unreadable { reason },
        }
    } else {
        FileProbe::Absent
    }
}

/// The version that the pin record `raw_json` names, if it names one.
pub fn extract_go_version(raw_json: &str) -> (r: Result<Option<String>, ResolveError>)
    ensures
        match pin_version_of(raw_json@) {
            None => r is Err && r->Err_0@ == Failure::CorruptPin,
            Some(None) => r == Ok::<Option<String>, ResolveError>(None),
            Some(Some(v)) => r matches Ok(Some(found)) && found@ == v,
        },
{
    match foreign::read_json_string_member(raw_json, "go") {
        Err(e) => Err(ResolveError::CorruptPin { reason: foreign::json_error_text(&e) }),
        Ok(None) => Ok(None),
        Ok(Some(v)) => if v.as_str().unicode_len() == 0 {
            Ok(None)
        } else {
            Ok(Some(v))
        },
    }
}

/// What a directory without a version in its pin record contributes.
fn manifest_decision(manifest_probe: &FileProbe, otherwise: LevelDecision) -> (r: LevelDecision)
    requires
        otherwise is Boundary || otherwise is Next,
    ensures
        r@ == manifest_or(manifest_probe@, otherwise@),
        r matches LevelDecision::Hit { version, source } ==> version@.len() > 0,
{
    match manifest_probe {
        FileProbe::Absent => otherwise,
        FileProbe::Unreadable { reason } => LevelDecision::Fail(
            ResolveError::Unreadable { reason: reason.clone() },
        ),
        FileProbe::Present { content } => match manifest::manifest_version(content.as_str()) {
            Some(version) => LevelDecision::Hit { version, source: VersionSource::Manifest },
            None => otherwise,
        },
    }
}

/// What one directory contributes to the search, given what was found of
/// its pin record and of its manifest.
pub fn decide_level(pin: &FileProbe, manifest_probe: &FileProbe) -> (r: LevelDecision)
    ensures
        r@ == level_result(LevelSeen { pin: pin@, manifest: manifest_probe@ }),
        r matches LevelDecision::Hit { version, source } ==> version@.len() > 0,
{
    match pin {
        FileProbe::Unreadable { reason } => LevelDecision::Fail(
            ResolveError::Unreadable { reason: reason.clone() },
        ),
        FileProbe::Present { content } => match extract_go_version(content.as_str()) {
            Err(e) => LevelDecision::Fail(e),
            Ok(Some(version)) => LevelDecision::Hit { version, source: VersionSource::Pin },
            Ok(None) => manifest_decision(manifest_probe, LevelDecision::Boundary),
        },
        FileProbe::Absent => manifest_decision(manifest_probe, LevelDecision::Next),
    }
}

/// Searches for the pin that holds in `start_dir`: looks in each directory
/// from `start_dir` up to the root for a pin record, and stops at the first
/// directory that has one. Answers with the version and the record's path,
/// with nothing where that record names no version or there is no record,
/// and with the failure where the record cannot be read or understood; the
/// reason of a failed reading is the one that the file system gave. Nothing
/// is answered for want of a record only after every directory up to the
/// root was looked at.
///
/// Whatever the file system answers, the result is the one of a walk over
/// what it answered, one look for each directory on the way.
pub fn find_pinned_go_version_from<F: PinFileSystem>(fs: &F, start_dir: &TreePath) -> (r: Result<
    Option<(String, TreePath)>,
    ResolveError,
>)
    ensures
        exists|levels: Seq<LevelSeen>| explains_pin(fs, start_dir@, levels, pinned_view(r)),
        r matches Ok(Some((v, p))) ==> v@.len() > 0,
        !(r matches Err(ResolveError::NotActive)),
{
    let mut dir = start_dir.clone();
    let ghost mut seen: Seq<LevelSeen> = Seq::empty();
    let absent = FileProbe::Absent;
    loop
        invariant
            walk(seen) is Next,
            seen.len() + dir@.names.len() == start_dir@.names.len(),
            dir@ == start_dir@.ancestor(seen.len()),
            forall|i: int|
                0 <= i < seen.len() ==> (#[trigger] seen[i]).manifest == Seen::Absent && may_see(
                    fs,
                    start_dir@.ancestor(i as nat).join(paths::pin_name()),
                    seen[i].pin,
                ),
            absent@ == Seen::Absent,
        decreases dir@.names.len(),
    {
        let pin_path = paths::pin_file(&dir);
        let pin = probe(fs, &pin_path);
        let ghost before = seen;
        proof {
            seen = seen.push(LevelSeen { pin: pin@, manifest: Seen::Absent });
            assert(seen.drop_last() =~= before);
            assert(seen.last() == LevelSeen { pin: pin@, manifest: Seen::Absent });
            assert(may_probe(fs, &pin_path, pin));
            assert forall|i: int| 0 <= i < seen.len() implies (#[trigger] seen[i]).manifest
                == Seen::Absent && may_see(
                fs,
                start_dir@.ancestor(i as nat).join(paths::pin_name()),
                seen[i].pin,
            ) by {
                if i < before.len() {
                    assert(seen[i] == before[i]);
                }
            }
        }
        match decide_level(&pin, &absent) {
            LevelDecision::Hit { version, source } => {
                let r = Ok(Some((version, pin_path)));
                assert(explains_pin(fs, start_dir@, seen, pinned_view(r)));
                return r;
            },
            LevelDecision::Fail(e) => {
                let r = Err(e);
                assert(explains_pin(fs, start_dir@, seen, pinned_view(r)));
                return r;
            },
            LevelDecision::Boundary => {
                let r = Ok(None);
                assert(explains_pin(fs, start_dir@, seen, pinned_view(r)));
                return r;
            },
            LevelDecision::Next => {},
        }
        if !dir.pop() {
            let r = Ok(None);
            assert(explains_pin(fs, start_dir@, seen, pinned_view(r)));
            return r;
        }
    }
}

impl ResolveError {
    /// The failure in words. Where nothing is active, the words name both
    /// remedies: to pin a version, and to set a default.
    pub fn message(&self) -> (r: String)
        ensures
            self@ == Failure::NotActive ==> r@
                == "No Go version is set. Use `golta pin go@<version>` in your project, or `golta default go@<version>` globally."@,
            self matches ResolveError::Unreadable { reason } ==> r@ == reason@,
            self matches ResolveError::CorruptPin { reason } ==> r@
                == "The pin record is not valid JSON: "@ + reason@,
    {
        match self {
            ResolveError::NotActive => String::from_str(
                "No Go version is set. Use `golta pin go@<version>` in your project, or `golta default go@<version>` globally.",
            ),
            ResolveError::Unreadable { reason } => reason.clone(),
            ResolveError::CorruptPin { reason } => String::from_str(
                "The pin record is not valid JSON: ",
            ).concat(reason.as_str()),
        }
    }
}

} // verus!
