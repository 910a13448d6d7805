//! The active version: the one that holds for a directory, decided by the
//! nearest pin record or manifest directive, or else by the global default.

use crate::paths;
use crate::paths::TreePath;
use crate::pinned_version::decide_level;
use crate::pinned_version::probe;
use crate::pinned_version::Failure;
use crate::pinned_version::FileProbe;
use crate::pinned_version::LevelDecision;
use crate::pinned_version::LevelResult;
use crate::pinned_version::LevelSeen;
use crate::pinned_version::PinFileSystem;
use crate::pinned_version::ResolveError;
use crate::pinned_version::Seen;
use crate::pinned_version::VersionSource;
use crate::text;
use vstd::prelude::*;

verus! {

/// A version together with where it comes from.
#[derive(Debug, Clone, PartialEq, Eq)]
pub struct ActiveVersion {
    pub version: String,
    pub source: VersionSource,
}

impl View for ActiveVersion {
    type V = (Seq<char>, VersionSource);

    open spec fn view(&self) -> (Seq<char>, VersionSource) {
        (self.version@, self.source)
    }
}

/// Where pinned and default versions come from.
pub trait VersionProvider {
    /// The version pinned for the project, if one is.
    fn find_pinned_version(&self) -> Result<Option<String>, String>;

    /// The global default version, if one is set.
    fn find_default_version(&self) -> Result<Option<String>, String>;
}

/// A recorded default without the whitespace around it and without the
/// toolchain's name in front.
pub open spec fn plain_version(recorded: Seq<char>) -> Seq<char> {
    text::without_leading(text::trimmed(recorded), "go@"@)
}

/// The version that the default record names: the record's text made plain,
/// where that is not empty.
pub open spec fn default_version_of(seen: Seen) -> Result<Option<Seq<char>>, Failure> {
    match seen {
        Seen::Absent => Ok(None),
        Seen::Unreadable(reason) => Err(Failure::Unreadable(reason)),
        Seen::Present(content) => if plain_version(content).len() == 0 {
            Ok(None)
        } else {
            Ok(Some(plain_version(content)))
        },
    }
}

/// The active version, given what a walk from the start directory to the
/// root found and what the default record holds: what the walk decides, or
/// else the default, or else the failure that nothing is active.
pub open spec fn resolution(levels: Seq<LevelSeen>, default: Seen) -> Result<
    (Seq<char>, VersionSource),
    Failure,
> {
    match crate::pinned_version::walk(levels) {
        LevelResult::Hit(v, source) => Ok((v, source)),
        LevelResult::Fail(f) => Err(f),
        _ => match default_version_of(default) {
            Err(f) => Err(f),
            Ok(Some(v)) => Ok((v, VersionSource::Default)),
            Ok(None) => Err(Failure::NotActive),
        },
    }
}

/// The value of a resolution's result.
pub open spec fn resolved_view(r: Result<ActiveVersion, ResolveError>) -> Result<
    (Seq<char>, VersionSource),
    Failure,
> {
    match r {
        Ok(active) => Ok(active@),
        Err(e) => Err(e@),
    }
}

/// Whether `levels` and `default` are what `fs` answers on the way from
/// `start` towards the root and, where the walk ends without a version, for
/// the default record below `home`: each level holds answers of `fs` to
/// looks at the pin record and at the manifest of the directory that many
/// steps up. A walk in which no directory decides has looked at every
/// directory up to the root.
pub open spec fn observed<F: PinFileSystem>(
    fs: &F,
    start: paths::TreePathView,
    home: paths::TreePathView,
    levels: Seq<LevelSeen>,
    default: Seen,
) -> bool {
    &&& 0 < levels.len() <= start.names.len() + 1
    &&& crate::pinned_version::walk(levels) is Next ==> levels.len() == start.names.len() + 1
    &&& forall|i: int|
        0 <= i < levels.len() ==> crate::pinned_version::may_see(
            fs,
            start.ancestor(i as nat).join(paths::pin_name()),
            (#[trigger] levels[i]).pin,
        ) && crate::pinned_version::may_see(
            fs,
            start.ancestor(i as nat).join(paths::manifest_name()),
            levels[i].manifest,
        )
    &&& !(crate::pinned_version::walk(levels) is Hit) && !(crate::pinned_version::walk(
        levels,
    ) is Fail) ==> crate::pinned_version::may_see(fs, paths::default_file_of(home), default)
}

/// Whether `r` is the resolution of what `fs` answers on the way from
/// `start` towards the root and for the default record below `home`.
pub open spec fn explains<F: PinFileSystem>(
    fs: &F,
    start: paths::TreePathView,
    home: paths::TreePathView,
    levels: Seq<LevelSeen>,
    default: Seen,
    r: Result<(Seq<char>, VersionSource), Failure>,
) -> bool {
    &&& observed(fs, start, home, levels, default)
    &&& r == resolution(levels, default)
}

/// The version of a resolution.
pub open spec fn version_of(resolved: Result<(Seq<char>, VersionSource), Failure>) -> Result<
    Seq<char>,
    Failure,
> {
    match resolved {
        Ok((v, _)) => Ok(v),
        Err(f) => Err(f),
    }
}

/// The value of a lookup's result.
pub open spec fn found_view(r: Result<String, ResolveError>) -> Result<Seq<char>, Failure> {
    match r {
        Ok(v) => Ok(v@),
        Err(e) => Err(e@),
    }
}

/// Whether `r` is the version of the resolution of what `fs` answers on the
/// way from `start` towards the root and for the default record below `home`.
pub open spec fn explains_found<F: PinFileSystem>(
    fs: &F,
    start: paths::TreePathView,
    home: paths::TreePathView,
    levels: Seq<LevelSeen>,
    default: Seen,
    r: Result<Seq<char>, Failure>,
) -> bool {
    &&& observed(fs, start, home, levels, default)
    &&& r == version_of(resolution(levels, default))
}

/// Whether a provider's answer names a version: it holds one that is not
/// empty.
pub open spec fn names_version(found: Option<String>) -> bool {
    found matches Some(v) && v@.len() > 0
}

/// What the lookup through a provider comes to, given what the provider
/// answers: its pinned version, or else its default, each where it is not
/// empty; the failure that nothing is active where it has neither. A failure
/// of the provider is handed on with its reason, that of the default only
/// where nothing is pinned.
pub open spec fn provided(
    pinned: Result<Option<String>, String>,
    default: Result<Option<String>, String>,
) -> Result<String, ResolveError> {
    match pinned {
        Err(reason) => Err(ResolveError::Unreadable { reason }),
        Ok(p) => if names_version(p) {
            Ok(p->Some_0)
        } else {
            match default {
                Err(reason) => Err(ResolveError::Unreadable { reason }),
                Ok(d) => if names_version(d) {
                    Ok(d->Some_0)
                } else {
                    Err(ResolveError::NotActive)
                },
            }
        },
    }
}

/// The version that the default record names.
pub fn read_default(record: &FileProbe) -> (r: Result<Option<String>, ResolveError>)
    ensures
        match default_version_of(record@) {
            Ok(None) => r == Ok::<Option<String>, ResolveError>(None),
            Ok(Some(v)) => r matches Ok(Some(found)) && found@ == v,
            Err(f) => r is Err && r->Err_0@ == f,
        },
{
    match record {
        FileProbe::Absent => Ok(None),
        FileProbe::Unreadable { reason } => Err(ResolveError::Unreadable { reason: reason.clone() }),
        FileProbe::Present { content } => {
            let plain = text::strip_leading(text::trim(content.as_str()), "go@");
            if plain.unicode_len() == 0 {
                Ok(None)
            } else {
                Ok(Some(String::from_str(plain)))
            }
        },
    }
}

/// Determines the active version for `start_dir`. Each directory from
/// `start_dir` up to the root is asked for its pin record and its manifest;
/// the first that names a version decides, a pin before a manifest. Where
/// the walk ends without a version, the default record below `home`
/// decides. Where that names none either, the resolution fails: nothing is
/// active.
///
/// Whatever the file system answers, the result is the resolution of what
/// it answered.
pub fn resolve_active_version<F: PinFileSystem>(
    fs: &F,
    start_dir: &TreePath,
    home: &TreePath,
) -> (r: Result<ActiveVersion, ResolveError>)
    ensures
        exists|levels: Seq<LevelSeen>, default: Seen|
            explains(fs, start_dir@, home@, levels, default, resolved_view(r)),
        r is Ok ==> r->Ok_0.version@.len() > 0,
{
    let mut dir = start_dir.clone();
    let ghost mut seen: Seq<LevelSeen> = Seq::empty();
    loop
        invariant_except_break
            crate::pinned_version::walk(seen) is Next,
            seen.len() + dir@.names.len() == start_dir@.names.len(),
            dir@ == start_dir@.ancestor(seen.len()),
        invariant
            forall|i: int|
                0 <= i < seen.len() ==> crate::pinned_version::may_see(
                    fs,
                    start_dir@.ancestor(i as nat).join(paths::pin_name()),
                    (#[trigger] seen[i]).pin,
                ) && crate::pinned_version::may_see(
                    fs,
                    start_dir@.ancestor(i as nat).join(paths::manifest_name()),
                    seen[i].manifest,
                ),
        ensures
            crate::pinned_version::walk(seen) is Next || crate::pinned_version::walk(
                seen,
            ) is Boundary,
            0 < seen.len() <= start_dir@.names.len() + 1,
            crate::pinned_version::walk(seen) is Next ==> seen.len() == start_dir@.names.len() + 1,
        decreases dir@.names.len(),
    {
        let pin_path = paths::pin_file(&dir);
        let manifest_path = paths::manifest_file(&dir);
        let pin = probe(fs, &pin_path);
        let manifest = probe(fs, &manifest_path);
        let ghost before = seen;
        proof {
            seen = seen.push(LevelSeen { pin: pin@, manifest: manifest@ });
            assert(seen.drop_last() =~= before);
            assert(crate::pinned_version::may_probe(fs, &pin_path, pin));
            assert(crate::pinned_version::may_probe(fs, &manifest_path, manifest));
            assert forall|i: int| 0 <= i < seen.len() implies crate::pinned_version::may_see(
                fs,
                start_dir@.ancestor(i as nat).join(paths::pin_name()),
                (#[trigger] seen[i]).pin,
            ) && crate::pinned_version::may_see(
                fs,
                start_dir@.ancestor(i as nat).join(paths::manifest_name()),
                seen[i].manifest,
            ) by {
                if i < before.len() {
                    assert(seen[i] == before[i]);
                }
            }
        }
        match decide_level(&pin, &manifest) {
            LevelDecision::Hit { version, source } => {
                let r = Ok(ActiveVersion { version, source });
                assert(explains(fs, start_dir@, home@, seen, Seen::Absent, resolved_view(r)));
                return r;
            },
            LevelDecision::Fail(e) => {
                let r = Err(e);
                assert(explains(fs, start_dir@, home@, seen, Seen::Absent, resolved_view(r)));
                return r;
            },
            LevelDecision::Boundary => {
                break ;
            },
            LevelDecision::Next => {},
        }
        if !dir.pop() {
            break ;
        }
    }
    let default_path = paths::default_file(home);
    let default = probe(fs, &default_path);
    assert(crate::pinned_version::may_probe(fs, &default_path, default));
    let r = match read_default(&default) {
        Err(e) => Err(e),
        Ok(Some(version)) => Ok(ActiveVersion { version, source: VersionSource::Default }),
        Ok(None) => Err(ResolveError::NotActive),
    };
    assert(explains(fs, start_dir@, home@, seen, default@, resolved_view(r)));
    r
}

/// The active version for `start_dir`: the version of its resolution, and
/// the failure that nothing is active where neither a pin, nor a manifest,
/// nor the default names one.
pub fn find_active_go_version<F: PinFileSystem>(fs: &F, start_dir: &TreePath, home: &TreePath) -> (r:
    Result<String, ResolveError>)
    ensures
        exists|levels: Seq<LevelSeen>, default: Seen|
            explains_found(fs, start_dir@, home@, levels, default, found_view(r)),
        r matches Ok(v) ==> v@.len() > 0,
{
    let resolved = resolve_active_version(fs, start_dir, home);
    let ghost (levels, default) = choose|levels: Seq<LevelSeen>, default: Seen|
        explains(fs, start_dir@, home@, levels, default, resolved_view(resolved));
    let r = match resolved {
        Ok(active) => Ok(active.version),
        Err(e) => Err(e),
    };
    assert(explains_found(fs, start_dir@, home@, levels, default, found_view(r)));
    r
}

/// Whether a provider's answer names a version.
fn has_version(found: &Option<String>) -> (r: bool)
    ensures
        r == names_version(*found),
{
    match found {
        Some(v) => v.as_str().unicode_len() > 0,
        None => false,
    }
}

/// The active version according to `finder`: its pinned version, or else its
/// default; the failure that nothing is active where it has neither. An
/// empty version counts as none. The default is asked for only where nothing
/// is pinned; the first failure of `finder` is handed on with its reason.
pub fn find_active_go_version_logic<P: VersionProvider>(finder: &P) -> (r: Result<
    String,
    ResolveError,
>)
    ensures
        exists|pinned: Result<Option<String>, String>, default: Result<Option<String>, String>|
            call_ensures(P::find_pinned_version, (finder,), pinned) && ((pinned matches Ok(p)
                && !names_version(p)) ==> call_ensures(P::find_default_version, (finder,), default))
                && r == #[trigger] provided(pinned, default),
        r matches Ok(v) ==> v@.len() > 0,
{
    let pinned = finder.find_pinned_version();
    match pinned {
        Err(reason) => {
            let r = Err(ResolveError::Unreadable { reason });
            assert(r == provided(pinned, Ok(None)));
            r
        },
        Ok(p) => {
            if has_version(&p) {
                let r = match p {
                    Some(version) => Ok(version),
                    None => Err(ResolveError::NotActive),
                };
                assert(r == provided(pinned, Ok(None)));
                r
            } else {
                let default = finder.find_default_version();
                let r = match default {
                    Err(reason) => Err(ResolveError::Unreadable { reason }),
                    Ok(d) => {
                        if has_version(&d) {
                            match d {
                                Some(version) => Ok(version),
                                None => Err(ResolveError::NotActive),
                            }
                        } else {
                            Err(ResolveError::NotActive)
                        }
                    },
                };
                assert(r == provided(pinned, default));
                r
            }
        },
    }
}

/// Through a provider that has neither a pinned version nor a default, the
/// lookup fails: nothing is active, and no version is made up.
pub proof fn nothing_provided_is_not_active(
    pinned: Result<Option<String>, String>,
    default: Result<Option<String>, String>,
)
    requires
        pinned matches Ok(p) && !names_version(p),
        default matches Ok(d) && !names_version(d),
    ensures
        provided(pinned, default) == Err::<String, ResolveError>(ResolveError::NotActive),
{
}

/// A walk decides as its first directory does, where that one does not pass.
pub proof fn first_level_decides(levels: Seq<LevelSeen>)
    requires
        levels.len() > 0,
        !(crate::pinned_version::level_result(levels[0]) is Next),
    ensures
        crate::pinned_version::walk(levels) == crate::pinned_version::level_result(levels[0]),
    decreases levels.len(),
{
    if levels.len() == 1 {
        assert(levels.drop_last() =~= Seq::<LevelSeen>::empty());
    } else {
        first_level_decides(levels.drop_last());
    }
}

/// A walk through directories that hold neither pin record nor manifest
/// passes them all.
pub proof fn empty_levels_pass(levels: Seq<LevelSeen>)
    requires
        forall|i: int|
            0 <= i < levels.len() ==> (#[trigger] levels[i]).pin == Seen::Absent
                && levels[i].manifest == Seen::Absent,
    ensures
        crate::pinned_version::walk(levels) is Next,
    decreases levels.len(),
{
    if levels.len() > 0 {
        empty_levels_pass(levels.drop_last());
    }
}

/// A pin in the start directory wins over any default: the resolution is the
/// pinned version, whatever the directories above and the default hold.
pub proof fn pin_wins_over_default(levels: Seq<LevelSeen>, default: Seen, pin: Seq<char>, a: Seq<char>)
    requires
        levels.len() > 0,
        levels[0].pin == Seen::Present(pin),
        crate::pinned_version::pin_version_of(pin) == Some(Some(a)),
    ensures
        resolution(levels, default) == Ok::<(Seq<char>, VersionSource), Failure>(
            (a, VersionSource::Pin),
        ),
{
    first_level_decides(levels);
}

/// Without any pin or manifest on the way, the default decides: the
/// resolution is the default version where the record names one, and the
/// failure that nothing is active where there is no record or it names none.
pub proof fn default_decides_without_pin(levels: Seq<LevelSeen>, default: Seen)
    requires
        forall|i: int|
            0 <= i < levels.len() ==> (#[trigger] levels[i]).pin == Seen::Absent
                && levels[i].manifest == Seen::Absent,
    ensures
        default_version_of(default) matches Ok(Some(b)) ==> resolution(levels, default) == Ok::<
            (Seq<char>, VersionSource),
            Failure,
        >((b, VersionSource::Default)),
        default_version_of(default) == Ok::<Option<Seq<char>>, Failure>(None) ==> resolution(
            levels,
            default,
        ) == Err::<(Seq<char>, VersionSource), Failure>(Failure::NotActive),
        default == Seen::Absent ==> resolution(levels, default) == Err::<
            (Seq<char>, VersionSource),
            Failure,
        >(Failure::NotActive),
{
    empty_levels_pass(levels);
}

/// A manifest in the start directory decides where that directory has no
/// pin record, whatever the directories above and the default hold.
pub proof fn manifest_decides_without_pin(
    levels: Seq<LevelSeen>,
    default: Seen,
    content: Seq<char>,
    v: Seq<char>,
)
    requires
        levels.len() > 0,
        levels[0].pin == Seen::Absent,
        levels[0].manifest == Seen::Present(content),
        crate::manifest::manifest_version_of(content) == Some(v),
    ensures
        resolution(levels, default) == Ok::<(Seq<char>, VersionSource), Failure>(
            (v, VersionSource::Manifest),
        ),
{
    first_level_decides(levels);
}

/// A pin record that is no JSON document fails the resolution: it does not
/// fall through to the manifest, to the directories above or to the default.
pub proof fn corrupt_pin_fails(levels: Seq<LevelSeen>, default: Seen, pin: Seq<char>)
    requires
        levels.len() > 0,
        levels[0].pin == Seen::Present(pin),
        crate::pinned_version::pin_version_of(pin) is None,
    ensures
        resolution(levels, default) == Err::<(Seq<char>, VersionSource), Failure>(
            Failure::CorruptPin,
        ),
{
    first_level_decides(levels);
}

} // verus!
