//! Removing the pin record of a project.

use crate::paths::TreePath;
use vstd::prelude::*;

verus! {

/// What became of a request to remove a pin record.
#[derive(Debug, Clone, Copy, PartialEq, Eq, Structural)]
pub enum UnpinOutcome {
    /// The record was there and is removed.
    Removed,
    /// No record was there.
    NotPinned,
}

/// The file system as the removal of a pin record needs it.
pub trait PinFileSystem {
    /// Whether a file stands at `path`.
    fn file_exists(&self, path: &TreePath) -> bool;

    /// Removes the file at `path`, or says why it cannot.
    fn remove_file(&self, path: &TreePath) -> Result<(), String>;
}

/// What a request comes to, given whether the record was there and, where it
/// was, how its removal went.
pub open spec fn unpin_result(present: bool, removal: Result<(), String>) -> Result<
    UnpinOutcome,
    String,
> {
    if !present {
        Ok(UnpinOutcome::NotPinned)
    } else {
        match removal {
            Ok(_) => Ok(UnpinOutcome::Removed),
            Err(reason) => Err(reason),
        }
    }
}

/// What to tell the user of an outcome.
pub open spec fn unpin_message_of(outcome: UnpinOutcome) -> Seq<char> {
    match outcome {
        UnpinOutcome::Removed => "Removed pinned version for this project."@,
        UnpinOutcome::NotPinned => "No Go version is pinned in this directory."@,
    }
}

/// What a request comes to, given whether the record was there and, where it
/// was, how its removal went.
pub fn unpin_outcome(present: bool, removal: Result<(), String>) -> (r: Result<UnpinOutcome, String>)
    ensures
        r == unpin_result(present, removal),
{
    if !present {
        Ok(UnpinOutcome::NotPinned)
    } else {
        match removal {
            Ok(_) => Ok(UnpinOutcome::Removed),
            Err(reason) => Err(reason),
        }
    }
}

/// Removes the pin record `pin_file` where it is there: asks `fs` whether
/// the record exists and, only where it does, to remove it. What the
/// removal answers decides between `Removed` and the failure.
pub fn unpin<F: PinFileSystem>(fs: &F, pin_file: &TreePath) -> (r: Result<UnpinOutcome, String>)
    ensures
        exists|present: bool, removal: Result<(), String>|
            call_ensures(F::file_exists, (fs, pin_file), present) && (present ==> call_ensures(
                F::remove_file,
                (fs, pin_file),
                removal,
            )) && r == #[trigger] unpin_result(present, removal),
{
    let present = fs.file_exists(pin_file);
    if present {
        let removal = fs.remove_file(pin_file);
        let r = unpin_outcome(true, removal);
        assert(r == unpin_result(present, removal));
        r
    } else {
        let r = unpin_outcome(false, Ok(()));
        assert(r == unpin_result(present, Ok(())));
        r
    }
}

/// What to tell the user of an outcome.
pub fn unpin_message(outcome: UnpinOutcome) -> (r: &'static str)
    ensures
        r@ == unpin_message_of(outcome),
{
    match outcome {
        UnpinOutcome::Removed => "Removed pinned version for this project.",
        UnpinOutcome::NotPinned => "No Go version is pinned in this directory.",
    }
}

} // verus!
