//! The installed versions: the directories below the versions directory that
//! hold a toolchain.

use crate::paths;
use crate::paths::TreePath;
use crate::text;
use vstd::prelude::*;

verus! {

/// An installed version of a tool: the directory's name is the version.
#[derive(Debug, PartialEq, Eq)]
pub struct InstalledVersion {
    pub tool: String,
    pub version: String,
    pub install_path: TreePath,
}

/// Where a version of a tool is installed: the toolchain's versions stand
/// directly in the versions directory, those of any other tool below a
/// directory of the tool's name.
pub open spec fn install_path_of(
    home: paths::TreePathView,
    tool: Seq<char>,
    version: Seq<char>,
) -> paths::TreePathView {
    if tool == "go"@ {
        paths::version_dir_of(home, version)
    } else {
        paths::tool_version_dir_of(home, tool, version)
    }
}

/// The installed version that `tool` and `version` name, with its place
/// below `home`.
pub fn installed_version(home: &TreePath, tool: &str, version: &str) -> (r: InstalledVersion)
    ensures
        r.tool@ == tool@,
        r.version@ == version@,
        r.install_path@ == install_path_of(home@, tool@, version@),
{
    let install_path = if text::same_text(tool, "go") {
        paths::version_dir(home, version)
    } else {
        paths::tool_version_dir(home, tool, version)
    };
    InstalledVersion { tool: String::from_str(tool), version: String::from_str(version), install_path }
}

/// One entry of a directory, as far as the registry reads it.
#[derive(Debug, Clone, PartialEq, Eq)]
pub struct DirEntryInfo {
    /// The entry's name, where it is valid Unicode.
    pub name: Option<String>,
    /// Whether the entry is a directory.
    pub is_dir: bool,
    /// Whether the entry holds the toolchain's binary where an installation
    /// puts it: a directory without it is no installed version, whatever a
    /// failed or unfinished installation left in it.
    pub complete: bool,
}

impl View for DirEntryInfo {
    type V = (Option<Seq<char>>, bool, bool);

    open spec fn view(&self) -> (Option<Seq<char>>, bool, bool) {
        (
            match self.name {
                Some(n) => Some(n@),
                None => None,
            },
            self.is_dir,
            self.complete,
        )
    }
}

/// The entries of a directory, as values.
pub open spec fn entries_view(entries: Seq<DirEntryInfo>) -> Seq<(Option<Seq<char>>, bool, bool)> {
    Seq::new(entries.len(), |i: int| entries[i]@)
}

/// The names of the entries that are installed versions: directories with a
/// name in Unicode that hold the toolchain's binary, in the order given.
pub open spec fn version_names(entries: Seq<(Option<Seq<char>>, bool, bool)>) -> Seq<Seq<char>>
    decreases entries.len(),
{
    if entries.len() == 0 {
        Seq::empty()
    } else {
        let rest = version_names(entries.drop_last());
        match entries.last() {
            (Some(name), true, true) => rest.push(name),
            _ => rest,
        }
    }
}

/// The installed versions, given the entries of the versions directory, or
/// nothing where that directory does not exist.
pub open spec fn installed_of(listing: Option<Seq<(Option<Seq<char>>, bool, bool)>>) -> Seq<Seq<char>> {
    match listing {
        Some(entries) => version_names(entries),
        None => Seq::empty(),
    }
}

/// The names of the entries that are installed versions: directories with a
/// name in Unicode that hold the toolchain's binary.
pub fn get_installed_versions_from_entries(entries: &Vec<DirEntryInfo>) -> (r: Vec<String>)
    ensures
        crate::paths::texts(r@) == version_names(entries_view(entries@)),
{
    let ghost all = entries_view(entries@);
    let mut names: Vec<String> = Vec::new();
    let mut i: usize = 0;
    assert(all.take(0) =~= Seq::<(Option<Seq<char>>, bool, bool)>::empty());
    assert(crate::paths::texts(names@) =~= Seq::<Seq<char>>::empty());
    while i < entries.len()
        invariant
            i <= entries.len(),
            all == entries_view(entries@),
            crate::paths::texts(names@) == version_names(all.take(i as int)),
        decreases entries.len() - i,
    {
        assert(all.take(i + 1).drop_last() =~= all.take(i as int));
        assert(all.take(i + 1).last() == entries@[i as int]@);
        let ghost before = crate::paths::texts(names@);
        if entries[i].is_dir && entries[i].complete {
            match &entries[i].name {
                Some(name) => {
                    names.push(name.clone());
                    assert(crate::paths::texts(names@) =~= before.push(name@));
                },
                None => {},
            }
        }
        i += 1;
    }
    assert(all.take(entries.len() as int) =~= all);
    names
}

/// The installed versions: the complete directories among the entries of
/// the versions directory, or none where that directory does not exist.
pub fn get_installed_versions(listing: Option<&Vec<DirEntryInfo>>) -> (r: Vec<String>)
    ensures
        crate::paths::texts(r@) == installed_of(
            match listing {
                Some(entries) => Some(entries_view(entries@)),
                None => None,
            },
        ),
{
    match listing {
        Some(entries) => get_installed_versions_from_entries(entries),
        None => {
            let names: Vec<String> = Vec::new();
            assert(crate::paths::texts(names@) =~= Seq::<Seq<char>>::empty());
            names
        },
    }
}

} // verus!
