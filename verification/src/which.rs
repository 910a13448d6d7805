//! Where the binary of the active version is.

use crate::paths;
use crate::paths::TreePath;
use crate::text;
use vstd::prelude::*;

verus! {

/// Why no binary can be named.
#[derive(Debug, Clone, Copy, PartialEq, Eq, Structural)]
pub enum WhichError {
    /// The tool asked for is not the toolchain.
    UnsupportedTool,
    /// No version is active.
    NotActive,
}

/// The binary of the active version: for the toolchain, where a version is
/// active and not empty, the binary of that version, without the
/// toolchain's name in front, below `home`.
pub open spec fn which_of(
    tool: Seq<char>,
    active: Option<Seq<char>>,
    home: paths::TreePathView,
    windows: bool,
) -> Result<paths::TreePathView, WhichError> {
    if tool != "go"@ {
        Err(WhichError::UnsupportedTool)
    } else {
        match active {
            None => Err(WhichError::NotActive),
            Some(version) => if version.len() == 0 {
                Err(WhichError::NotActive)
            } else {
                Ok(paths::go_binary_of(home, text::without_leading(version, "go@"@), windows))
            },
        }
    }
}

/// The path of the binary that a command of `tool` runs, given the active
/// version.
pub fn which_go(tool: &str, active: Option<&str>, home: &TreePath, windows: bool) -> (r: Result<
    TreePath,
    WhichError,
>)
    ensures
        match which_of(
            tool@,
            match active {
                Some(a) => Some(a@),
                None => None,
            },
            home@,
            windows,
        ) {
            Ok(path) => r is Ok && r->Ok_0@ == path,
            Err(e) => r == Err::<TreePath, WhichError>(e),
        },
{
    if !text::same_text(tool, "go") {
        return Err(WhichError::UnsupportedTool);
    }
    match active {
        None => Err(WhichError::NotActive),
        Some(version) => {
            if version.unicode_len() == 0 {
                return Err(WhichError::NotActive);
            }
            Ok(paths::go_binary(home, text::strip_leading(version, "go@"), windows))
        },
    }
}

impl WhichError {
    /// The failure in words, with what to do about it.
    pub fn message(&self) -> (r: &'static str)
        ensures
            *self == WhichError::UnsupportedTool ==> r@
                == "Only `go` is supported for which currently."@,
            *self == WhichError::NotActive ==> r@
                == "No Go version is active. Use `golta pin` or `golta default`."@,
    {
        match self {
            WhichError::UnsupportedTool => "Only `go` is supported for which currently.",
            WhichError::NotActive => "No Go version is active. Use `golta pin` or `golta default`.",
        }
    }
}

} // verus!
