//! The global default: setting it to an installed version, and clearing it.

use crate::text;
use vstd::prelude::*;

verus! {

/// The subcommands of `default`.
#[derive(Debug, Clone, Copy, PartialEq, Eq, Structural)]
pub enum DefaultCommands {
    /// Remove the default.
    Clear,
}

/// A `default` request: a subcommand, or the tool and version to set.
#[derive(Debug, Clone, PartialEq, Eq)]
pub struct DefaultCommand {
    pub command: Option<DefaultCommands>,
    pub tool: Option<String>,
}

/// Where the default is kept.
pub trait DefaultManager {
    /// Records `version` as the default, or says why it cannot.
    fn set_default(&mut self, version: &str) -> Result<(), String>;

    /// Removes the default. Answers whether there was one.
    fn clear_default(&mut self) -> Result<bool, String>;
}

/// Why a `default` request failed.
#[derive(Debug, Clone, PartialEq, Eq)]
pub enum DefaultError {
    /// The request does not have the form `go@<version>`.
    UnsupportedTool,
    /// The request names neither a subcommand nor a tool.
    MissingTool,
    /// The version asked for is not installed.
    NotInstalled { version: String },
    /// The default could not be written or removed.
    Manager { reason: String },
}

/// Why a `default` request failed, as a value.
pub enum DefaultFailure {
    UnsupportedTool,
    MissingTool,
    NotInstalled(Seq<char>),
    Manager(Seq<char>),
}

impl View for DefaultError {
    type V = DefaultFailure;

    open spec fn view(&self) -> DefaultFailure {
        match self {
            DefaultError::UnsupportedTool => DefaultFailure::UnsupportedTool,
            DefaultError::MissingTool => DefaultFailure::MissingTool,
            DefaultError::NotInstalled { version } => DefaultFailure::NotInstalled(version@),
            DefaultError::Manager { reason } => DefaultFailure::Manager(reason@),
        }
    }
}

/// The version that a request of the form `go@<version>` names.
pub open spec fn tool_version_of(tool: Seq<char>) -> Option<Seq<char>> {
    if "go@"@.is_prefix_of(tool) {
        Some(text::without_leading(tool, "go@"@))
    } else {
        None
    }
}

/// What to tell the user after the default was set to `version`.
pub open spec fn set_message_of(version: Seq<char>) -> Seq<char> {
    "Set Go default version to "@ + version
}

/// What to tell the user after a request to clear the default.
pub open spec fn clear_message_of(was_set: bool) -> Seq<char> {
    if was_set {
        "Cleared global default Go version."@
    } else {
        "No global default Go version is set."@
    }
}

/// What to tell the user of a version that is not installed.
pub open spec fn not_installed_message_of(version: Seq<char>) -> Seq<char> {
    "Go version "@ + version + " is not installed. Please install it first with `golta install go@"@
        + version + "`."@
}

/// Whether `version` is among the installed versions.
pub open spec fn is_installed(installed: Seq<String>, version: Seq<char>) -> bool {
    exists|i: int| 0 <= i < installed.len() && (#[trigger] installed[i])@ == version
}

/// What a request to clear comes to, given what the manager answers; its
/// failure is handed on with its reason.
pub open spec fn cleared_result(cleared: Result<bool, String>) -> Result<Seq<char>, DefaultFailure> {
    match cleared {
        Ok(was_set) => Ok(clear_message_of(was_set)),
        Err(reason) => Err(DefaultFailure::Manager(reason@)),
    }
}

/// What a request to set `version` comes to, given what the manager answers;
/// its failure is handed on with its reason.
pub open spec fn set_result(version: Seq<char>, set: Result<(), String>) -> Result<
    Seq<char>,
    DefaultFailure,
> {
    match set {
        Ok(_) => Ok(set_message_of(version)),
        Err(reason) => Err(DefaultFailure::Manager(reason@)),
    }
}

/// The version that a request asks to set, or why it asks for none.
pub open spec fn version_to_set(tool: Option<Seq<char>>) -> Result<Seq<char>, DefaultFailure> {
    match tool {
        None => Err(DefaultFailure::MissingTool),
        Some(t) => match tool_version_of(t) {
            None => Err(DefaultFailure::UnsupportedTool),
            Some(version) => Ok(version),
        },
    }
}

/// The value of a request's result.
pub open spec fn handled_view(r: Result<String, DefaultError>) -> Result<Seq<char>, DefaultFailure> {
    match r {
        Ok(message) => Ok(message@),
        Err(e) => Err(e@),
    }
}

/// The text of an optional string.
pub open spec fn tool_text(tool: Option<String>) -> Option<Seq<char>> {
    match tool {
        Some(t) => Some(t@),
        None => None,
    }
}

/// The version that a request of the form `go@<version>` names.
pub fn parse_tool_version(tool: &str) -> (r: Result<&str, DefaultError>)
    ensures
        match tool_version_of(tool@) {
            Some(v) => r is Ok && r->Ok_0@ == v,
            None => r is Err && r->Err_0@ == DefaultFailure::UnsupportedTool,
        },
{
    if !text::starts_with(tool, "go@") {
        return Err(DefaultError::UnsupportedTool);
    }
    Ok(text::strip_leading(tool, "go@"))
}

/// Whether `version` is among the installed versions.
pub fn version_is_installed(installed: &Vec<String>, version: &str) -> (r: bool)
    ensures
        r == is_installed(installed@, version@),
{
    let mut i: usize = 0;
    while i < installed.len()
        invariant
            i <= installed.len(),
            forall|j: int| 0 <= j < i ==> (#[trigger] installed@[j])@ != version@,
        decreases installed.len() - i,
    {
        if text::same_text(installed[i].as_str(), version) {
            return true;
        }
        i += 1;
    }
    false
}

/// Admits `version` as the default only where it is installed.
pub fn check_default_candidate(installed: &Vec<String>, version: &str) -> (r: Result<
    (),
    DefaultError,
>)
    ensures
        is_installed(installed@, version@) ==> r is Ok,
        !is_installed(installed@, version@) ==> r is Err && r->Err_0@
            == DefaultFailure::NotInstalled(version@),
{
    if version_is_installed(installed, version) {
        Ok(())
    } else {
        Err(DefaultError::NotInstalled { version: String::from_str(version) })
    }
}

/// Carries out a `default` request on `manager` and answers with the message
/// for the user. A request to clear asks the manager to clear; a request
/// that names `go@<version>` asks it to set that version; any other request
/// fails without the manager being asked, and leaves it as it was.
pub fn handle_default<M: DefaultManager>(cmd: DefaultCommand, manager: &mut M) -> (r: Result<
    String,
    DefaultError,
>)
    ensures
        cmd.command is Some ==> exists|handle: &mut M, cleared: Result<bool, String>|
            *handle == *old(manager) && *final(handle) == *final(manager) && #[trigger] call_ensures(
                M::clear_default,
                (handle,),
                cleared,
            ) && handled_view(r) == cleared_result(cleared),
        cmd.command is None ==> match version_to_set(tool_text(cmd.tool)) {
            Err(failure) => r is Err && r->Err_0@ == failure && *final(manager) == *old(manager),
            Ok(version) => exists|handle: &mut M, asked: &str, set: Result<(), String>|
                *handle == *old(manager) && *final(handle) == *final(manager) && asked@ == version
                    && #[trigger] call_ensures(M::set_default, (handle, asked), set)
                    && handled_view(r) == set_result(version, set),
        },
{
    match cmd.command {
        Some(DefaultCommands::Clear) => {
            let cleared = manager.clear_default();
            match cleared {
                Ok(was_set) => Ok(String::from_str(clear_message(was_set))),
                Err(reason) => Err(DefaultError::Manager { reason }),
            }
        },
        None => match &cmd.tool {
            None => Err(DefaultError::MissingTool),
            Some(tool) => match parse_tool_version(tool.as_str()) {
                Err(e) => Err(e),
                Ok(version) => {
                    let set = manager.set_default(version);
                    match set {
                        Ok(_) => Ok(set_message(version)),
                        Err(reason) => Err(DefaultError::Manager { reason }),
                    }
                },
            },
        },
    }
}

/// What to tell the user after the default was set to `version`.
pub fn set_message(version: &str) -> (r: String)
    ensures
        r@ == set_message_of(version@),
{
    String::from_str("Set Go default version to ").concat(version)
}

/// What to tell the user after a request to clear the default.
pub fn clear_message(was_set: bool) -> (r: &'static str)
    ensures
        r@ == clear_message_of(was_set),
{
    if was_set {
        "Cleared global default Go version."
    } else {
        "No global default Go version is set."
    }
}

impl DefaultError {
    /// The failure in words.
    pub fn message(&self) -> (r: String)
        ensures
            self@ == DefaultFailure::UnsupportedTool ==> r@
                == "Only Go default version is supported currently. Use format 'go@<version>'."@,
            self@ == DefaultFailure::MissingTool ==> r@
                == "No tool was named. Use format 'go@<version>'."@,
            self matches DefaultError::NotInstalled { version } ==> r@ == not_installed_message_of(
                version@,
            ),
            self matches DefaultError::Manager { reason } ==> r@ == reason@,
    {
        match self {
            DefaultError::UnsupportedTool => String::from_str(
                "Only Go default version is supported currently. Use format 'go@<version>'.",
            ),
            DefaultError::MissingTool => String::from_str(
                "No tool was named. Use format 'go@<version>'.",
            ),
            DefaultError::NotInstalled { version } => {
                let mut m = String::from_str("Go version ");
                m.append(version.as_str());
                m.append(" is not installed. Please install it first with `golta install go@");
                m.append(version.as_str());
                m.append("`.");
                m
            },
            DefaultError::Manager { reason } => reason.clone(),
        }
    }
}

} // verus!
