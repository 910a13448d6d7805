//! Running a command as a version named on the spot, whatever is active.

use crate::paths;
use crate::paths::TreePath;
use crate::text;
use vstd::prelude::*;

verus! {

/// Why a command was not run.
#[derive(Debug, Clone, Copy, PartialEq, Eq, Structural)]
pub enum RunError {
    /// The request does not have the form `go@<version>`.
    UnsupportedTool,
}

/// The version that a request of the form `go@<version>` names.
pub open spec fn run_version_of(tool: Seq<char>) -> Option<Seq<char>> {
    if "go@"@.is_prefix_of(tool) {
        Some(text::without_leading(tool, "go@"@))
    } else {
        None
    }
}

/// The binary to run for the version that `tool` names: the toolchain's
/// binary of that version below `home`.
pub fn run_go(tool: &str, home: &TreePath, windows: bool) -> (r: Result<TreePath, RunError>)
    ensures
        match run_version_of(tool@) {
            Some(version) => r is Ok && r->Ok_0@ == paths::go_binary_of(home@, version, windows),
            None => r == Err::<TreePath, RunError>(RunError::UnsupportedTool),
        },
{
    if !text::starts_with(tool, "go@") {
        return Err(RunError::UnsupportedTool);
    }
    let version = text::strip_leading(tool, "go@");
    Ok(paths::go_binary(home, version, windows))
}

impl RunError {
    /// The failure in words.
    pub fn message(&self) -> (r: &'static str)
        ensures
            r@ == "Only Go run is supported currently. Use format 'go@<version>'."@,
    {
        "Only Go run is supported currently. Use format 'go@<version>'."
    }
}

} // verus!
