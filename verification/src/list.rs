//! The list of installed versions: which of them can be ordered, their order
//! from newest to oldest, and the marks for the default, the pinned and the
//! active one.

use crate::foreign;
use crate::paths;
use crate::paths::TreePath;
use crate::text;
use vstd::prelude::*;

verus! {

broadcast use vstd::seq_lib::group_to_multiset_ensures;

/// What the listing needs from the outside.
pub trait ListContext {
    /// The user's home directory, if it can be found.
    fn home_dir(&self) -> Option<TreePath>;

    /// The text of the default record, if it can be read.
    fn read_default_version(&self, default_file: &TreePath) -> Option<String>;

    /// The version pinned for the current directory, if one is.
    fn pinned_go_version(&self) -> Result<Option<String>, String>;

    /// The names of the installed versions.
    fn installed_versions(&self) -> Result<Vec<String>, String>;
}

/// Why the listing failed.
#[derive(Debug, Clone, PartialEq, Eq)]
pub enum ListError {
    /// The home directory cannot be found.
    NoHome,
    /// The outside failed to answer.
    Context { reason: String },
}

/// An installed version: the name of its directory, and the semantic
/// version by which it is ordered.
#[derive(Debug, Clone, PartialEq, Eq)]
pub struct Listed {
    pub key: String,
    pub name: String,
}

impl View for Listed {
    type V = (Seq<char>, Seq<char>);

    open spec fn view(&self) -> (Seq<char>, Seq<char>) {
        (self.key@, self.name@)
    }
}

/// The keys and names of some listed versions.
pub open spec fn listed_view(entries: Seq<Listed>) -> Seq<(Seq<char>, Seq<char>)> {
    Seq::new(entries.len(), |i: int| entries[i]@)
}

/// The expression that recognises a release candidate or beta of the
/// toolchain: two numbers, the kind, and a number.
pub open spec fn prerelease_pattern() -> Seq<char> {
    "^(\\d+\\.\\d+)(rc|beta)(\\d+)$"@
}

/// The semantic version for a toolchain version, given what the expression
/// for pre-releases captured in it: `<numbers>.0-<kind><number>` where it
/// captured the three parts, else the version itself.
pub open spec fn normalized_from(version: Seq<char>, captures: Option<Seq<Option<Seq<char>>>>) -> Seq<
    char,
> {
    match captures {
        Some(groups) => if groups.len() == 4 && groups[1] is Some && groups[2] is Some
            && groups[3] is Some {
            groups[1]->Some_0 + ".0-"@ + groups[2]->Some_0 + groups[3]->Some_0
        } else {
            version
        },
        None => version,
    }
}

/// The semantic version for a toolchain version: a pre-release such as
/// `1.3rc1` reads `1.3.0-rc1`, any other version reads as it stands.
pub open spec fn normalized(version: Seq<char>) -> Seq<char> {
    normalized_from(
        version,
        match foreign::regex_groups(prerelease_pattern(), version) {
            Some(found) => found,
            None => None,
        },
    )
}

/// The installed versions that can be ordered: those whose normal form is a
/// semantic version, each with that form as its key, in the order given.
pub open spec fn listable(installed: Seq<Seq<char>>) -> Seq<(Seq<char>, Seq<char>)>
    decreases installed.len(),
{
    if installed.len() == 0 {
        Seq::empty()
    } else {
        let rest = listable(installed.drop_last());
        let name = installed.last();
        if foreign::semver_parse(normalized(name)) is Some {
            rest.push((normalized(name), name))
        } else {
            rest
        }
    }
}

/// `sorted` with `x` put in behind every entry that is not older than it.
pub open spec fn inserted(sorted: Seq<(Seq<char>, Seq<char>)>, x: (Seq<char>, Seq<char>)) -> Seq<
    (Seq<char>, Seq<char>),
>
    decreases sorted.len(),
{
    if sorted.len() == 0 {
        seq![x]
    } else if foreign::semver_precedence(sorted.last().0, x.0) < 0 {
        inserted(sorted.drop_last(), x).push(sorted.last())
    } else {
        sorted.push(x)
    }
}

/// The entries from newest to oldest, equals in the order given.
pub open spec fn newest_first(entries: Seq<(Seq<char>, Seq<char>)>) -> Seq<(Seq<char>, Seq<char>)>
    decreases entries.len(),
{
    if entries.len() == 0 {
        Seq::empty()
    } else {
        inserted(newest_first(entries.drop_last()), entries.last())
    }
}

/// The marks behind a version: whether it is the default, the pinned one.
pub open spec fn tags_of(is_default: bool, is_pinned: bool) -> Seq<char> {
    if is_default && is_pinned {
        " (default, pinned)"@
    } else if is_default {
        " (default)"@
    } else if is_pinned {
        " (pinned)"@
    } else {
        Seq::empty()
    }
}

/// The active version: the pinned one, or else the default.
pub open spec fn active_of(default: Option<Seq<char>>, pinned: Option<Seq<char>>) -> Option<
    Seq<char>,
> {
    match pinned {
        Some(v) => Some(v),
        None => default,
    }
}

/// The line for one version: a star before the active one, then the name
/// and its marks.
pub open spec fn line_of(name: Seq<char>, default: Option<Seq<char>>, pinned: Option<Seq<char>>) -> Seq<
    char,
> {
    (if active_of(default, pinned) == Some(name) {
        "*"@
    } else {
        " "@
    }) + " "@ + name + tags_of(default == Some(name), pinned == Some(name)) + "\n"@
}

/// The lines for some versions, in their order.
pub open spec fn lines_of(
    entries: Seq<(Seq<char>, Seq<char>)>,
    default: Option<Seq<char>>,
    pinned: Option<Seq<char>>,
) -> Seq<char>
    decreases entries.len(),
{
    if entries.len() == 0 {
        Seq::empty()
    } else {
        lines_of(entries.drop_last(), default, pinned) + line_of(entries.last().1, default, pinned)
    }
}

/// The listing of the installed versions: a heading, then the versions that
/// can be ordered, newest first, or the notice that there are none.
pub open spec fn listing_of(
    default: Option<Seq<char>>,
    pinned: Option<Seq<char>>,
    installed: Seq<Seq<char>>,
) -> Seq<char> {
    let entries = newest_first(listable(installed));
    "Installed Go versions:\n"@ + if entries.len() == 0 {
        "  No Go versions installed\n"@
    } else {
        lines_of(entries, default, pinned)
    }
}

/// The default as the listing reads it: the record's text without the
/// whitespace around it.
pub open spec fn default_text(recorded: Option<String>) -> Option<Seq<char>> {
    match recorded {
        Some(s) => Some(text::trimmed(s@)),
        None => None,
    }
}

/// The text of an optional string.
pub open spec fn owned_text(s: Option<String>) -> Option<Seq<char>> {
    match s {
        Some(v) => Some(v@),
        None => None,
    }
}

/// Whether `r` is the listing for the default `recorded` and what `ctx`
/// answers next: it is asked for the pinned version and for the installed
/// versions, and the first failure is handed on.
pub open spec fn listed_under<C: ListContext>(
    ctx: &C,
    recorded: Option<String>,
    r: Result<String, ListError>,
) -> bool {
    exists|pinned: Result<Option<String>, String>| #[trigger]
        call_ensures(C::pinned_go_version, (ctx,), pinned) && match pinned {
            Err(reason) => r == Err::<String, ListError>(ListError::Context { reason }),
            Ok(p) => exists|installed: Result<Vec<String>, String>| #[trigger]
                call_ensures(C::installed_versions, (ctx,), installed) && match installed {
                    Err(reason) => r == Err::<String, ListError>(ListError::Context { reason }),
                    Ok(list) => r is Ok && r->Ok_0@ == listing_of(
                        default_text(recorded),
                        owned_text(p),
                        paths::texts(list@),
                    ),
                },
        }
}

/// Whether `r` is what listing with `ctx` comes to: `ctx` is asked for the
/// home directory, without which the listing fails; then for the text of
/// the default record below it; then for the rest.
pub open spec fn listed_by<C: ListContext>(ctx: &C, r: Result<String, ListError>) -> bool {
    exists|home: Option<TreePath>| #[trigger]
        call_ensures(C::home_dir, (ctx,), home) && match home {
            None => r == Err::<String, ListError>(ListError::NoHome),
            Some(h) => exists|file: TreePath, recorded: Option<String>|
                file@ == paths::default_file_of(h@) && #[trigger] call_ensures(
                    C::read_default_version,
                    (ctx, &file),
                    recorded,
                ) && listed_under(ctx, recorded, r),
        }
}

/// The text of an optional string slice.
pub open spec fn slice_text(s: Option<&str>) -> Option<Seq<char>> {
    match s {
        Some(v) => Some(v@),
        None => None,
    }
}

/// The semantic version for a toolchain version, given what the expression
/// for pre-releases captured in it.
pub fn normalized_from_captures(version: &str, captures: Option<&Vec<Option<String>>>) -> (r:
    String)
    ensures
        r@ == normalized_from(
            version@,
            match captures {
                Some(groups) => Some(foreign::group_texts(groups@)),
                None => None,
            },
        ),
{
    match captures {
        Some(groups) => {
            if groups.len() == 4 {
                match (&groups[1], &groups[2], &groups[3]) {
                    (Some(numbers), Some(kind), Some(number)) => {
                        let mut r = numbers.clone();
                        r.append(".0-");
                        r.append(kind.as_str());
                        r.append(number.as_str());
                        return r;
                    },
                    _ => {},
                }
            }
            String::from_str(version)
        },
        None => String::from_str(version),
    }
}

/// The semantic version for a toolchain version: a pre-release such as
/// `1.3rc1` reads `1.3.0-rc1`, any other version reads as it stands.
pub fn normalize_go_version_for_semver(version_str: &str) -> (r: String)
    ensures
        r@ == normalized(version_str@),
{
    match foreign::regex_captures("^(\\d+\\.\\d+)(rc|beta)(\\d+)$", version_str) {
        Ok(Some(groups)) => normalized_from_captures(version_str, Some(&groups)),
        Ok(None) => normalized_from_captures(version_str, None),
        Err(_) => normalized_from_captures(version_str, None),
    }
}

/// The installed versions that can be ordered, each with its key.
pub fn listable_versions(installed: &Vec<String>) -> (r: Vec<Listed>)
    ensures
        listed_view(r@) == listable(paths::texts(installed@)),
        forall|i: int| 0 <= i < r.len() ==> foreign::semver_parse((#[trigger] r@[i]).key@) is Some,
{
    let ghost names = paths::texts(installed@);
    let mut r: Vec<Listed> = Vec::new();
    let mut i: usize = 0;
    assert(names.take(0) =~= Seq::<Seq<char>>::empty());
    assert(listed_view(r@) =~= Seq::<(Seq<char>, Seq<char>)>::empty());
    while i < installed.len()
        invariant
            i <= installed.len(),
            names == paths::texts(installed@),
            listed_view(r@) == listable(names.take(i as int)),
            forall|k: int|
                0 <= k < r.len() ==> foreign::semver_parse((#[trigger] r@[k]).key@) is Some,
        decreases installed.len() - i,
    {
        assert(names.take(i + 1).drop_last() =~= names.take(i as int));
        assert(names.take(i + 1).last() == installed@[i as int]@);
        let key = normalize_go_version_for_semver(installed[i].as_str());
        let ghost before = listed_view(r@);
        match foreign::parse_version(key.as_str()) {
            Ok(_) => {
                let entry = Listed { key, name: installed[i].clone() };
                r.push(entry);
                assert(listed_view(r@) =~= before.push(entry@));
            },
            Err(_) => {},
        }
        i += 1;
    }
    assert(names.take(installed.len() as int) =~= names);
    r
}

/// Putting `x` in at `at` is putting it in behind every entry that is not
/// older, where all entries from `at` on are older and the one before is not.
proof fn inserted_at(sorted: Seq<(Seq<char>, Seq<char>)>, x: (Seq<char>, Seq<char>), at: int)
    requires
        0 <= at <= sorted.len(),
        forall|k: int| at <= k < sorted.len() ==> foreign::semver_precedence(
            (#[trigger] sorted[k]).0,
            x.0,
        ) < 0,
        at > 0 ==> foreign::semver_precedence(sorted[at - 1].0, x.0) >= 0,
    ensures
        inserted(sorted, x) == sorted.insert(at, x),
    decreases sorted.len(),
{
    if sorted.len() == 0 {
        assert(sorted.insert(at, x) =~= seq![x]);
    } else if at == sorted.len() {
        assert(sorted.insert(at, x) =~= sorted.push(x));
    } else {
        assert(foreign::semver_precedence(sorted[sorted.len() - 1].0, x.0) < 0);
        inserted_at(sorted.drop_last(), x, at);
        assert(sorted.insert(at, x) =~= sorted.drop_last().insert(at, x).push(sorted.last()));
    }
}

/// Orders versions from newest to oldest; equals keep the order given.
pub fn sort_newest_first(entries: &Vec<Listed>) -> (r: Vec<Listed>)
    requires
        forall|i: int|
            0 <= i < entries.len() ==> foreign::semver_parse((#[trigger] entries@[i]).key@) is Some,
    ensures
        listed_view(r@) == newest_first(listed_view(entries@)),
        listed_view(r@).to_multiset() == listed_view(entries@).to_multiset(),
        forall|k: int|
            0 <= k < r.len() - 1 ==> foreign::semver_precedence(
                (#[trigger] r@[k]).key@,
                r@[k + 1].key@,
            ) >= 0,
{
    let ghost all = listed_view(entries@);
    let mut sorted: Vec<Listed> = Vec::new();
    let mut i: usize = 0;
    assert(all.take(0) =~= Seq::<(Seq<char>, Seq<char>)>::empty());
    assert(listed_view(sorted@) =~= Seq::<(Seq<char>, Seq<char>)>::empty());
    while i < entries.len()
        invariant
            i <= entries.len(),
            all == listed_view(entries@),
            forall|k: int|
                0 <= k < entries.len() ==> foreign::semver_parse((#[trigger] entries@[k]).key@)
                    is Some,
            listed_view(sorted@) == newest_first(all.take(i as int)),
            listed_view(sorted@).to_multiset() == all.take(i as int).to_multiset(),
            forall|k: int|
                0 <= k < sorted.len() ==> foreign::semver_parse((#[trigger] sorted@[k]).key@)
                    is Some,
            forall|k: int|
                0 <= k < sorted.len() - 1 ==> foreign::semver_precedence(
                    (#[trigger] sorted@[k]).key@,
                    sorted@[k + 1].key@,
                ) >= 0,
        decreases entries.len() - i,
    {
        let x = Listed { key: entries[i].key.clone(), name: entries[i].name.clone() };
        assert(x@ == all[i as int]);
        let ghost before = sorted@;
        let mut at: usize = sorted.len();
        let mut searching: bool = true;
        while searching && at > 0
            invariant
                at <= sorted.len(),
                sorted@ == before,
                foreign::semver_parse(x.key@) is Some,
                forall|k: int|
                    0 <= k < sorted.len() ==> foreign::semver_parse((#[trigger] sorted@[k]).key@)
                        is Some,
                forall|k: int|
                    at <= k < sorted.len() ==> foreign::semver_precedence(
                        (#[trigger] sorted@[k]).key@,
                        x.key@,
                    ) < 0 && foreign::semver_precedence(x.key@, sorted@[k].key@) > 0,
                !searching ==> at > 0 && foreign::semver_precedence(sorted@[at - 1].key@, x.key@)
                    >= 0,
            decreases at + if searching { 1int } else { 0int },
        {
            match foreign::version_sign(sorted[at - 1].key.as_str(), x.key.as_str()) {
                Ok(sign) => {
                    if sign < 0 {
                        at -= 1;
                    } else {
                        searching = false;
                    }
                },
                Err(_) => {
                    searching = false;
                },
            }
        }
        proof {
            let s = listed_view(before);
            assert forall|k: int| at <= k < s.len() implies foreign::semver_precedence(
                (#[trigger] s[k]).0,
                x@.0,
            ) < 0 by {
                assert(s[k] == before[k]@);
            }
            if at > 0 {
                assert(s[at - 1] == before[at - 1]@);
            }
            inserted_at(s, x@, at as int);
            assert(all.take(i + 1).drop_last() =~= all.take(i as int));
            assert(all.take(i + 1) =~= all.take(i as int).push(x@));
        }
        sorted.insert(at, x);
        proof {
            assert(listed_view(sorted@) =~= listed_view(before).insert(at as int, x@));
            assert forall|k: int| 0 <= k < sorted.len() - 1 implies foreign::semver_precedence(
                (#[trigger] sorted@[k]).key@,
                sorted@[k + 1].key@,
            ) >= 0 by {
                if k + 1 < at {
                    assert(sorted@[k] == before[k]);
                    assert(sorted@[k + 1] == before[k + 1]);
                } else if k + 1 == at {
                    assert(sorted@[k] == before[k]);
                } else if k == at {
                    assert(sorted@[k + 1] == before[k]);
                } else {
                    assert(sorted@[k] == before[k - 1]);
                    assert(sorted@[k + 1] == before[k]);
                }
            }
            assert forall|k: int| 0 <= k < sorted.len() implies foreign::semver_parse(
                (#[trigger] sorted@[k]).key@,
            ) is Some by {
                if k < at {
                    assert(sorted@[k] == before[k]);
                } else if k > at {
                    assert(sorted@[k] == before[k - 1]);
                }
            }
        }
        i += 1;
    }
    assert(all.take(entries.len() as int) =~= all);
    sorted
}

/// Whether an optional text is the text `name`.
fn names(candidate: Option<&str>, name: &str) -> (r: bool)
    ensures
        r == (slice_text(candidate) == Some(name@)),
{
    match candidate {
        Some(v) => text::same_text(v, name),
        None => false,
    }
}

/// The line for one version.
pub fn render_line(name: &str, default: Option<&str>, pinned: Option<&str>) -> (r: String)
    ensures
        r@ == line_of(name@, slice_text(default), slice_text(pinned)),
{
    let is_default = names(default, name);
    let is_pinned = names(pinned, name);
    let is_active = match pinned {
        Some(_) => is_pinned,
        None => is_default,
    };
    let mut line = String::from_str(if is_active {
        "*"
    } else {
        " "
    });
    line.append(" ");
    line.append(name);
    if is_default && is_pinned {
        line.append(" (default, pinned)");
    } else if is_default {
        line.append(" (default)");
    } else if is_pinned {
        line.append(" (pinned)");
    } else {
        assert(line@ + Seq::<char>::empty() =~= line@);
    }
    line.append("\n");
    line
}

/// The listing of the installed versions, with the marks for the default
/// and the pinned version.
pub fn render_installed(default: Option<&str>, pinned: Option<&str>, installed: &Vec<String>) -> (r:
    String)
    ensures
        r@ == listing_of(slice_text(default), slice_text(pinned), paths::texts(installed@)),
{
    let candidates = listable_versions(installed);
    let sorted = sort_newest_first(&candidates);
    let ghost entries = listed_view(sorted@);
    let mut out = String::from_str("Installed Go versions:\n");
    if sorted.len() == 0 {
        out.append("  No Go versions installed\n");
        return out;
    }
    let ghost head = out@;
    let mut i: usize = 0;
    assert(entries.take(0) =~= Seq::<(Seq<char>, Seq<char>)>::empty());
    assert(head + Seq::<char>::empty() =~= head);
    while i < sorted.len()
        invariant
            i <= sorted.len(),
            entries == listed_view(sorted@),
            out@ == head + lines_of(entries.take(i as int), slice_text(default), slice_text(pinned)),
        decreases sorted.len() - i,
    {
        assert(entries.take(i + 1).drop_last() =~= entries.take(i as int));
        assert(entries.take(i + 1).last() == sorted@[i as int]@);
        let line = render_line(sorted[i].name.as_str(), default, pinned);
        let ghost so_far = lines_of(entries.take(i as int), slice_text(default), slice_text(pinned));
        out.append(line.as_str());
        assert(head + so_far + line@ =~= head + (so_far + line@));
        i += 1;
    }
    assert(entries.take(sorted.len() as int) =~= entries);
    out
}

/// Lists the installed versions as `ctx` reports them, newest first, the
/// active one starred, the default and the pinned one marked. The default is
/// the text of the default record without the whitespace around it.
pub fn list_go<C: ListContext>(ctx: &C) -> (r: Result<String, ListError>)
    ensures
        listed_by(ctx, r),
{
    let home = match ctx.home_dir() {
        Some(home) => home,
        None => {
            return Err(ListError::NoHome);
        },
    };
    let default_file = paths::default_file(&home);
    let recorded = ctx.read_default_version(&default_file);
    let found = ctx.pinned_go_version();
    let pinned = match found {
        Ok(p) => p,
        Err(reason) => {
            let r = Err(ListError::Context { reason });
            assert(listed_under(ctx, recorded, r));
            return r;
        },
    };
    let listed = ctx.installed_versions();
    let installed = match listed {
        Ok(v) => v,
        Err(reason) => {
            let r = Err(ListError::Context { reason });
            assert(listed_under(ctx, recorded, r));
            return r;
        },
    };
    let default: Option<&str> = match &recorded {
        Some(s) => Some(text::trim(s.as_str())),
        None => None,
    };
    let pinned_text: Option<&str> = match &pinned {
        Some(s) => Some(s.as_str()),
        None => None,
    };
    let r = Ok(render_installed(default, pinned_text, &installed));
    assert(listed_under(ctx, recorded, r));
    r
}

impl ListError {
    /// The failure in words.
    pub fn message(&self) -> (r: String)
        ensures
            *self == ListError::NoHome ==> r@ == "Could not find home directory"@,
            self matches ListError::Context { reason } ==> r@ == reason@,
    {
        match self {
            ListError::NoHome => String::from_str("Could not find home directory"),
            ListError::Context { reason } => reason.clone(),
        }
    }
}

} // verus!
