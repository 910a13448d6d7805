//! Paths as sequences of names below an anchor, and the on-disk layout of
//! the manager's home: where versions, state, cache and pin records live.

use vstd::prelude::*;

verus! {

/// A path: an anchor (the root or drive it starts from, empty for a relative
/// path) followed by names, outermost first.
#[derive(Debug, PartialEq, Eq, Hash)]
pub struct TreePath {
    pub anchor: String,
    pub names: Vec<String>,
}

/// The mathematical value of a [`TreePath`].
pub struct TreePathView {
    pub anchor: Seq<char>,
    pub names: Seq<Seq<char>>,
}

/// The texts held by a sequence of strings.
pub open spec fn texts(v: Seq<String>) -> Seq<Seq<char>> {
    Seq::new(v.len(), |i: int| v[i]@)
}

impl View for TreePath {
    type V = TreePathView;

    open spec fn view(&self) -> TreePathView {
        TreePathView { anchor: self.anchor@, names: texts(self.names@) }
    }
}

impl TreePathView {
    /// The path one name further down.
    pub open spec fn join(self, name: Seq<char>) -> TreePathView {
        TreePathView { anchor: self.anchor, names: self.names.push(name) }
    }

    /// The enclosing path; an anchor alone encloses itself.
    pub open spec fn parent(self) -> TreePathView {
        if self.names.len() == 0 {
            self
        } else {
            TreePathView { anchor: self.anchor, names: self.names.drop_last() }
        }
    }

    /// The path `levels` steps up, stopping at the anchor.
    pub open spec fn ancestor(self, levels: nat) -> TreePathView
        decreases levels,
    {
        if levels == 0 {
            self
        } else {
            self.ancestor((levels - 1) as nat).parent()
        }
    }
}

/// Names written one after the other with `separator` between them.
pub open spec fn joined(names: Seq<Seq<char>>, separator: Seq<char>) -> Seq<char>
    decreases names.len(),
{
    if names.len() == 0 {
        Seq::empty()
    } else if names.len() == 1 {
        names[0]
    } else {
        joined(names.drop_last(), separator) + separator + names.last()
    }
}

/// A path as it is written: the anchor, then the names with `separator`
/// between them.
pub open spec fn rendered(path: TreePathView, separator: Seq<char>) -> Seq<char> {
    path.anchor + joined(path.names, separator)
}

/// The name of the directory that holds everything the manager keeps.
pub open spec fn home_name() -> Seq<char> {
    ".golta"@
}

/// The name of the pin record inside a project directory.
pub open spec fn pin_name() -> Seq<char> {
    ".golta.json"@
}

/// The name of the module manifest inside a project directory.
pub open spec fn manifest_name() -> Seq<char> {
    "go.mod"@
}

/// Where the toolchain versions are installed, below `home`.
pub open spec fn versions_dir_of(home: TreePathView) -> TreePathView {
    home.join(home_name()).join("versions"@)
}

/// Where one toolchain version is installed.
pub open spec fn version_dir_of(home: TreePathView, version: Seq<char>) -> TreePathView {
    versions_dir_of(home).join(version)
}

/// Where one version of an auxiliary tool is installed.
pub open spec fn tool_version_dir_of(
    home: TreePathView,
    tool: Seq<char>,
    version: Seq<char>,
) -> TreePathView {
    versions_dir_of(home).join(tool).join(version)
}

/// The file that records the global default version of the toolchain.
pub open spec fn default_file_of(home: TreePathView) -> TreePathView {
    home.join(home_name()).join("state"@).join("default.txt"@)
}

/// The file that records the global default version of an auxiliary tool.
pub open spec fn tool_default_file_of(home: TreePathView, tool: Seq<char>) -> TreePathView {
    home.join(home_name()).join("state"@).join(tool + ".default"@)
}

/// The file that caches the remote catalog.
pub open spec fn cache_file_of(home: TreePathView) -> TreePathView {
    home.join(home_name()).join("cache"@).join("remote_versions.json"@)
}

/// Where an archive is unpacked before the toolchain is put in place.
pub open spec fn staging_dir_of(install_dir: TreePathView) -> TreePathView {
    install_dir.join("go_temp"@)
}

/// The unpacked toolchain inside the staging directory.
pub open spec fn staged_root_of(install_dir: TreePathView) -> TreePathView {
    staging_dir_of(install_dir).join("go"@)
}

/// The final place of the unpacked toolchain.
pub open spec fn placed_root_of(install_dir: TreePathView) -> TreePathView {
    install_dir.join("go"@)
}

/// The name of the toolchain's executable.
pub open spec fn executable_name(windows: bool) -> Seq<char> {
    if windows {
        "go.exe"@
    } else {
        "go"@
    }
}

/// The toolchain executable of an installed version: the executable in the
/// `bin` directory of the toolchain that was put in place for the version.
pub open spec fn go_binary_of(home: TreePathView, version: Seq<char>, windows: bool) -> TreePathView {
    placed_root_of(version_dir_of(home, version)).join("bin"@).join(executable_name(windows))
}

impl Clone for TreePath {
    fn clone(&self) -> (r: Self)
        ensures
            r@ == self@,
    {
        let mut names: Vec<String> = Vec::new();
        let mut i: usize = 0;
        while i < self.names.len()
            invariant
                i <= self.names.len(),
                names.len() == i,
                forall|j: int| 0 <= j < i ==> names@[j]@ == self.names@[j]@,
            decreases self.names.len() - i,
        {
            names.push(self.names[i].clone());
            i += 1;
        }
        let r = TreePath { anchor: self.anchor.clone(), names };
        assert(r@.names =~= self@.names);
        r
    }
}

impl TreePath {
    /// The path made of `anchor` and `names`.
    pub fn new(anchor: &str, names: Vec<String>) -> (r: TreePath)
        ensures
            r@.anchor == anchor@,
            r@.names == texts(names@),
    {
        TreePath { anchor: String::from_str(anchor), names }
    }

    /// The relative path without names.
    pub fn empty() -> (r: TreePath)
        ensures
            r@.anchor == Seq::<char>::empty(),
            r@.names == Seq::<Seq<char>>::empty(),
    {
        let r = TreePath { anchor: String::new(), names: Vec::new() };
        assert(r@.names =~= Seq::<Seq<char>>::empty());
        r
    }

    /// How many names lie below the anchor.
    pub fn depth(&self) -> (n: usize)
        ensures
            n == self@.names.len(),
    {
        self.names.len()
    }

    /// The path one name further down.
    pub fn join(&self, name: &str) -> (r: TreePath)
        ensures
            r@ == self@.join(name@),
    {
        let mut r = self.clone();
        let ghost before = r.names@;
        r.names.push(String::from_str(name));
        assert(r@.names =~= self@.names.push(name@));
        r
    }

    /// Moves to the enclosing path. Answers `false`, and changes nothing,
    /// where there is none: at the anchor.
    pub fn pop(&mut self) -> (moved: bool)
        ensures
            moved == (old(self)@.names.len() > 0),
            final(self)@ == old(self)@.parent(),
    {
        let ghost before = self.names@;
        match self.names.pop() {
            Some(_) => {
                assert(self@.names =~= old(self)@.names.drop_last());
                true
            },
            None => {
                assert(self@.names =~= old(self)@.names);
                false
            },
        }
    }

    /// The path as it is written with `separator` between its names.
    pub fn render(&self, separator: &str) -> (r: String)
        ensures
            r@ == rendered(self@, separator@),
    {
        let ghost names = self@.names;
        let mut out = self.anchor.clone();
        let mut i: usize = 0;
        assert(names.take(0) =~= Seq::<Seq<char>>::empty());
        assert(self.anchor@ + Seq::<char>::empty() =~= self.anchor@);
        while i < self.names.len()
            invariant
                i <= self.names.len(),
                names == self@.names,
                out@ == self.anchor@ + joined(names.take(i as int), separator@),
            decreases self.names.len() - i,
        {
            assert(names.take(i + 1).drop_last() =~= names.take(i as int));
            assert(names.take(i + 1).last() == self.names@[i as int]@);
            let ghost so_far = joined(names.take(i as int), separator@);
            if i > 0 {
                out.append(separator);
                out.append(self.names[i].as_str());
                assert(self.anchor@ + so_far + separator@ + self.names@[i as int]@ =~= self.anchor@
                    + (so_far + separator@ + self.names@[i as int]@));
            } else {
                out.append(self.names[i].as_str());
                assert(so_far =~= Seq::<char>::empty());
                assert(names.take(1)[0] == self.names@[0]@);
                assert(self.anchor@ + so_far + self.names@[i as int]@ =~= self.anchor@
                    + self.names@[i as int]@);
            }
            i += 1;
        }
        assert(names.take(self.names.len() as int) =~= names);
        out
    }

    /// The last name, if there is one.
    pub fn file_name(&self) -> (r: Option<&str>)
        ensures
            self@.names.len() == 0 ==> r is None,
            self@.names.len() > 0 ==> r is Some && r->Some_0@ == self@.names.last(),
    {
        if self.names.len() == 0 {
            None
        } else {
            Some(self.names[self.names.len() - 1].as_str())
        }
    }
}

/// Where the toolchain versions are installed, below `home`.
pub fn versions_dir(home: &TreePath) -> (r: TreePath)
    ensures
        r@ == versions_dir_of(home@),
{
    home.join(".golta").join("versions")
}

/// Where one toolchain version is installed.
pub fn version_dir(home: &TreePath, version: &str) -> (r: TreePath)
    ensures
        r@ == version_dir_of(home@, version@),
{
    versions_dir(home).join(version)
}

/// Where one version of an auxiliary tool is installed.
pub fn tool_version_dir(home: &TreePath, tool: &str, version: &str) -> (r: TreePath)
    ensures
        r@ == tool_version_dir_of(home@, tool@, version@),
{
    versions_dir(home).join(tool).join(version)
}

/// The file that records the global default version of the toolchain.
pub fn default_file(home: &TreePath) -> (r: TreePath)
    ensures
        r@ == default_file_of(home@),
{
    home.join(".golta").join("state").join("default.txt")
}

/// The file that records the global default version of an auxiliary tool.
pub fn tool_default_file(home: &TreePath, tool: &str) -> (r: TreePath)
    ensures
        r@ == tool_default_file_of(home@, tool@),
{
    let name = String::from_str(tool).concat(".default");
    home.join(".golta").join("state").join(name.as_str())
}

/// The file that caches the remote catalog.
pub fn cache_file(home: &TreePath) -> (r: TreePath)
    ensures
        r@ == cache_file_of(home@),
{
    home.join(".golta").join("cache").join("remote_versions.json")
}

/// The pin record of the project directory `dir`.
pub fn pin_file(dir: &TreePath) -> (r: TreePath)
    ensures
        r@ == dir@.join(pin_name()),
{
    dir.join(".golta.json")
}

/// Where an archive is unpacked before the toolchain is put in place.
pub fn staging_dir(install_dir: &TreePath) -> (r: TreePath)
    ensures
        r@ == staging_dir_of(install_dir@),
{
    install_dir.join("go_temp")
}

/// The unpacked toolchain inside the staging directory.
pub fn staged_root(install_dir: &TreePath) -> (r: TreePath)
    ensures
        r@ == staged_root_of(install_dir@),
{
    staging_dir(install_dir).join("go")
}

/// The final place of the unpacked toolchain.
pub fn placed_root(install_dir: &TreePath) -> (r: TreePath)
    ensures
        r@ == placed_root_of(install_dir@),
{
    install_dir.join("go")
}

/// The module manifest of the project directory `dir`.
pub fn manifest_file(dir: &TreePath) -> (r: TreePath)
    ensures
        r@ == dir@.join(manifest_name()),
{
    dir.join("go.mod")
}

/// The name of the toolchain's executable.
pub fn go_executable_name(windows: bool) -> (r: &'static str)
    ensures
        r@ == executable_name(windows),
{
    if windows {
        "go.exe"
    } else {
        "go"
    }
}

/// The toolchain executable of an installed version.
pub fn go_binary(home: &TreePath, version: &str, windows: bool) -> (r: TreePath)
    ensures
        r@ == go_binary_of(home@, version@, windows),
{
    placed_root(&version_dir(home, version)).join("bin").join(go_executable_name(windows))
}

} // verus!
