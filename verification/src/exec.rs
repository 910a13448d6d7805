//! Dispatch: running a toolchain command as the active version, and what
//! becomes of its exit status.

use crate::paths;
use crate::paths::TreePath;
use crate::text;
use vstd::prelude::*;

verus! {

/// Where the active version and its binary come from.
pub trait GoEnvironment {
    /// The active version as it is recorded, if one is active.
    fn active_version(&self) -> Result<Option<String>, String>;

    /// The path of the toolchain's binary for `version`.
    fn go_binary_path(&self, version: &str) -> Result<TreePath, String>;
}

/// What runs a command.
pub trait GoCommandRunner {
    /// Runs the binary at `go_path` with `args` and answers with the exit
    /// code to hand on.
    fn run(&mut self, go_path: &TreePath, args: &Vec<String>) -> Result<i32, String>;
}

/// Why a command was not dispatched.
#[derive(Debug, Clone, PartialEq, Eq)]
pub enum ExecError {
    /// The tool asked for is not the toolchain.
    UnsupportedTool,
    /// No version is active.
    NotActive,
    /// The active version is not installed, and installing it was not wanted.
    NotInstalled { version: String },
    /// The outside failed.
    Context { reason: String },
}

/// Why a command was not dispatched, without the wording of outside failures.
pub enum ExecFailure {
    UnsupportedTool,
    NotActive,
    NotInstalled(Seq<char>),
    Context,
}

impl View for ExecError {
    type V = ExecFailure;

    open spec fn view(&self) -> ExecFailure {
        match self {
            ExecError::UnsupportedTool => ExecFailure::UnsupportedTool,
            ExecError::NotActive => ExecFailure::NotActive,
            ExecError::NotInstalled { version } => ExecFailure::NotInstalled(version@),
            ExecError::Context { reason } => ExecFailure::Context,
        }
    }
}

/// What is done about an active version that is not installed.
#[derive(Debug, Clone, Copy, PartialEq, Eq, Structural)]
pub enum MissingVersionAction {
    /// Fail at once.
    Fail,
    /// Install the version without asking.
    Install,
    /// Ask the user whether to install it.
    Prompt,
}

/// How control passes to the toolchain's binary.
#[derive(Debug, Clone, Copy, PartialEq, Eq, Structural)]
pub enum DispatchMode {
    /// The binary takes the place of this process.
    Replace,
    /// The binary runs as a child whose exit code is handed on.
    SpawnAndWait,
}

/// A recorded version without the whitespace around it and without the
/// toolchain's name in front; nothing where that leaves nothing.
pub open spec fn clean_version(recorded: Seq<char>) -> Option<Seq<char>> {
    let v = text::without_leading(text::trimmed(recorded), "go@"@);
    if v.len() == 0 {
        None
    } else {
        Some(v)
    }
}

/// The version to dispatch to, given the tool asked for and the active
/// version as it is recorded.
pub open spec fn exec_target(tool: Seq<char>, active: Option<Seq<char>>) -> Result<
    Seq<char>,
    ExecFailure,
> {
    if tool != "go"@ {
        Err(ExecFailure::UnsupportedTool)
    } else {
        match active {
            None => Err(ExecFailure::NotActive),
            Some(recorded) => match clean_version(recorded) {
                None => Err(ExecFailure::NotActive),
                Some(v) => Ok(v),
            },
        }
    }
}

/// The exit code to hand on for a child's exit status: its code, or 1 where
/// it ended without one.
pub open spec fn exit_code_of(status: Option<i32>) -> i32 {
    match status {
        Some(code) => code,
        None => 1,
    }
}

/// What is done about an active version that is not installed: in
/// continuous integration fail; else install where that was asked for
/// beforehand; else ask.
pub open spec fn missing_action_of(ci: bool, auto_install: bool) -> MissingVersionAction {
    if ci {
        MissingVersionAction::Fail
    } else if auto_install {
        MissingVersionAction::Install
    } else {
        MissingVersionAction::Prompt
    }
}

/// Whether an answer to the question "install?" means yes: an empty answer
/// does, and so do `y` and `yes` in either case.
pub open spec fn accepts(answer: Seq<char>) -> bool {
    let a = text::trimmed(answer);
    a.len() == 0 || a == "y"@ || a == "Y"@ || a == "yes"@ || a == "Yes"@ || a == "YES"@
}

/// The result of a dispatch, given what the runner answered.
pub open spec fn run_result(ran: Result<i32, String>) -> Result<i32, ExecError> {
    match ran {
        Ok(code) => Ok(code),
        Err(reason) => Err(ExecError::Context { reason }),
    }
}

/// The text of an optional string.
pub open spec fn option_text(s: Option<String>) -> Option<Seq<char>> {
    match s {
        Some(v) => Some(v@),
        None => None,
    }
}

/// The version to dispatch to, given the tool asked for and the active
/// version as it is recorded.
pub fn exec_version<'a>(tool: &str, active: Option<&'a str>) -> (r: Result<&'a str, ExecError>)
    ensures
        match exec_target(
            tool@,
            match active {
                Some(a) => Some(a@),
                None => None,
            },
        ) {
            Ok(v) => r is Ok && r->Ok_0@ == v,
            Err(e) => r is Err && r->Err_0@ == e,
        },
{
    if !text::same_text(tool, "go") {
        return Err(ExecError::UnsupportedTool);
    }
    match active {
        None => Err(ExecError::NotActive),
        Some(recorded) => {
            let version = text::strip_leading(text::trim(recorded), "go@");
            if version.unicode_len() == 0 {
                Err(ExecError::NotActive)
            } else {
                Ok(version)
            }
        },
    }
}

/// Runs the toolchain with `args` as the version that is active according
/// to `env`, and answers with the exit code to hand on. Nothing is run where
/// the tool is not the toolchain or no version is active; the binary that is
/// run is the one that `env` names for the active version, cleaned of
/// whitespace and of the toolchain's name in front.
pub fn exec_go<E: GoEnvironment, R: GoCommandRunner>(
    tool: &str,
    args: &Vec<String>,
    env: &E,
    runner: &mut R,
) -> (r: Result<i32, ExecError>)
    ensures
        tool@ != "go"@ ==> r == Err::<i32, ExecError>(ExecError::UnsupportedTool) && *final(runner)
            == *old(runner),
        tool@ == "go"@ ==> exists|active: Result<Option<String>, String>| #[trigger]
            call_ensures(E::active_version, (env,), active) && match active {
                Err(reason) => r == Err::<i32, ExecError>(ExecError::Context { reason })
                    && *final(runner) == *old(runner),
                Ok(recorded) => match exec_target(tool@, option_text(recorded)) {
                    Err(_) => r == Err::<i32, ExecError>(ExecError::NotActive) && *final(runner)
                        == *old(runner),
                    Ok(version) => exists|asked: &str, binary: Result<TreePath, String>|
                        asked@ == version && #[trigger] call_ensures(
                            E::go_binary_path,
                            (env, asked),
                            binary,
                        ) && match binary {
                            Err(reason) => r == Err::<i32, ExecError>(
                                ExecError::Context { reason },
                            ) && *final(runner) == *old(runner),
                            Ok(path) => exists|handle: &mut R, ran: Result<i32, String>|
                                *handle == *old(runner) && *final(handle) == *final(runner)
                                    && #[trigger] call_ensures(R::run, (handle, &path, args), ran)
                                    && r == run_result(ran),
                        },
                },
            },
{
    if !text::same_text(tool, "go") {
        return Err(ExecError::UnsupportedTool);
    }
    let found = env.active_version();
    let recorded = match found {
        Ok(v) => v,
        Err(reason) => {
            return Err(ExecError::Context { reason });
        },
    };
    let active: Option<&str> = match &recorded {
        Some(s) => Some(s.as_str()),
        None => None,
    };
    let version = match exec_version(tool, active) {
        Ok(v) => v,
        Err(e) => {
            return Err(e);
        },
    };
    let binary = env.go_binary_path(version);
    let go_path = match binary {
        Ok(p) => p,
        Err(reason) => {
            return Err(ExecError::Context { reason });
        },
    };
    let ran = runner.run(&go_path, args);
    match ran {
        Ok(code) => Ok(code),
        Err(reason) => Err(ExecError::Context { reason }),
    }
}

/// The exit code to hand on for a child's exit status.
pub fn exit_code(status: Option<i32>) -> (r: i32)
    ensures
        r == exit_code_of(status),
{
    match status {
        Some(code) => code,
        None => 1,
    }
}

/// What is done about an active version that is not installed.
pub fn missing_version_action(ci: bool, auto_install: bool) -> (r: MissingVersionAction)
    ensures
        r == missing_action_of(ci, auto_install),
{
    if ci {
        MissingVersionAction::Fail
    } else if auto_install {
        MissingVersionAction::Install
    } else {
        MissingVersionAction::Prompt
    }
}

/// Whether an answer to the question "install?" means yes.
pub fn prompt_accepts(answer: &str) -> (r: bool)
    ensures
        r == accepts(answer@),
{
    let a = text::trim(answer);
    a.unicode_len() == 0 || text::same_text(a, "y") || text::same_text(a, "Y") || text::same_text(
        a,
        "yes",
    ) || text::same_text(a, "Yes") || text::same_text(a, "YES")
}

/// How control passes to the binary: by replacing this process where the
/// platform can do that, else by running a child.
pub fn dispatch_mode(can_replace: bool) -> (r: DispatchMode)
    ensures
        can_replace ==> r == DispatchMode::Replace,
        !can_replace ==> r == DispatchMode::SpawnAndWait,
{
    if can_replace {
        DispatchMode::Replace
    } else {
        DispatchMode::SpawnAndWait
    }
}

/// The name of the variable that tells the toolchain where it is installed.
pub fn root_variable() -> (r: &'static str)
    ensures
        r@ == "GOROOT"@,
{
    "GOROOT"
}

/// The directory that the toolchain's root variable points to for a
/// version: the toolchain that was put in place for that version, and no
/// other installation.
pub fn root_directory(home: &TreePath, version: &str) -> (r: TreePath)
    ensures
        r@ == paths::placed_root_of(paths::version_dir_of(home@, version@)),
        paths::go_binary_of(home@, version@, false) == r@.join("bin"@).join("go"@),
{
    paths::placed_root(&paths::version_dir(home, version))
}

/// The toolchain root that a binary belongs to: the directory above the
/// one that holds the binary; nothing for a path too short to have one.
pub open spec fn root_of(binary: paths::TreePathView) -> Option<paths::TreePathView> {
    if binary.names.len() >= 2 {
        Some(binary.parent().parent())
    } else {
        None
    }
}

/// The toolchain root that the binary at `go_path` belongs to.
pub fn root_of_binary(go_path: &TreePath) -> (r: Option<TreePath>)
    ensures
        match root_of(go_path@) {
            Some(root) => r is Some && r->Some_0@ == root,
            None => r is None,
        },
{
    if go_path.depth() < 2 {
        return None;
    }
    let mut root = go_path.clone();
    root.pop();
    root.pop();
    Some(root)
}

/// The root that a version's binary belongs to is the root directory of
/// that version: a command run as a version sees that version's
/// installation, and no other.
pub proof fn binary_belongs_to_its_version(
    home: paths::TreePathView,
    version: Seq<char>,
    windows: bool,
)
    ensures
        root_of(paths::go_binary_of(home, version, windows)) == Some(
            paths::placed_root_of(paths::version_dir_of(home, version)),
        ),
{
    let root = paths::placed_root_of(paths::version_dir_of(home, version));
    let bin = root.join("bin"@);
    let binary = bin.join(paths::executable_name(windows));
    assert(binary.names.drop_last() =~= bin.names);
    assert(bin.names.drop_last() =~= root.names);
}

impl ExecError {
    /// The failure in words, with what to do about it.
    pub fn message(&self) -> (r: String)
        ensures
            self@ == ExecFailure::UnsupportedTool ==> r@
                == "Only `go` is supported for exec currently."@,
            self@ == ExecFailure::NotActive ==> r@
                == "No Go version is active. Use `golta pin` or `golta default`."@,
            self matches ExecError::NotInstalled { version } ==> r@ == "Go "@ + version@
                + " is not installed. Run `golta install go@"@ + version@ + "` first."@,
            self matches ExecError::Context { reason } ==> r@ == reason@,
    {
        match self {
            ExecError::UnsupportedTool => String::from_str(
                "Only `go` is supported for exec currently.",
            ),
            ExecError::NotActive => String::from_str(
                "No Go version is active. Use `golta pin` or `golta default`.",
            ),
            ExecError::NotInstalled { version } => {
                let mut m = String::from_str("Go ");
                m.append(version.as_str());
                m.append(" is not installed. Run `golta install go@");
                m.append(version.as_str());
                m.append("` first.");
                m
            },
            ExecError::Context { reason } => reason.clone(),
        }
    }
}

} // verus!
