//! Pinning a version to a project: the pin record that is written, and the
//! checks before it.

use crate::default::version_is_installed;
use crate::foreign;
use crate::paths;
use crate::paths::TreePath;
use crate::pinned_version::extract_go_version;
use crate::text;
use vstd::prelude::*;

verus! {

/// What pinning needs from the outside.
pub trait PinContext {
    /// The names of the installed versions.
    fn installed_versions(&self) -> Result<Vec<String>, String>;

    /// The directory of the project.
    fn current_dir(&self) -> Result<TreePath, String>;

    /// Writes `contents` to the file at `path`.
    fn write_pin_file(&self, path: &TreePath, contents: &str) -> Result<(), String>;
}

/// Why a version was not pinned.
#[derive(Debug, Clone, PartialEq, Eq)]
pub enum PinError {
    /// The request does not have the form `go@<version>`.
    InvalidFormat,
    /// The version asked for is not installed.
    NotInstalled { version: String },
    /// The pin record could not be put into words.
    Encode { reason: String },
    /// The outside failed: the installed versions or the directory could not
    /// be had, or the record could not be written.
    Context { reason: String },
}

/// Why a version was not pinned, without the wording of outside failures.
pub enum PinFailure {
    InvalidFormat,
    NotInstalled(Seq<char>),
    Encode,
    Context,
}

impl View for PinError {
    type V = PinFailure;

    open spec fn view(&self) -> PinFailure {
        match self {
            PinError::InvalidFormat => PinFailure::InvalidFormat,
            PinError::NotInstalled { version } => PinFailure::NotInstalled(version@),
            PinError::Encode { reason } => PinFailure::Encode,
            PinError::Context { reason } => PinFailure::Context,
        }
    }
}

/// What is written for a pin: the version and the text of the record.
#[derive(Debug, Clone, PartialEq, Eq)]
pub struct PinPlan {
    pub version: String,
    pub contents: String,
}

/// The version that a request of the form `go@<version>` names.
pub open spec fn pinned_version_of(tool: Seq<char>) -> Option<Seq<char>> {
    if "go@"@.is_prefix_of(tool) {
        Some(text::without_leading(tool, "go@"@))
    } else {
        None
    }
}

/// The text of the pin record for a version: the JSON object whose member
/// `go` is the version, where that text reads back as a pin record that
/// names the version.
pub open spec fn pin_record_of(version: Seq<char>) -> Option<Seq<char>> {
    match foreign::json_object_text("go"@, version) {
        Some(contents) => if crate::pinned_version::pin_version_of(contents) == Some(
            Some(version),
        ) {
            Some(contents)
        } else {
            None
        },
        None => None,
    }
}

/// What pinning comes to before anything is written: the version and the
/// record's text, where the request names an installed version.
pub open spec fn pin_plan_of(tool: Seq<char>, installed: Seq<String>) -> Result<
    (Seq<char>, Seq<char>),
    PinFailure,
> {
    match pinned_version_of(tool) {
        None => Err(PinFailure::InvalidFormat),
        Some(version) => if !crate::default::is_installed(installed, version) {
            Err(PinFailure::NotInstalled(version))
        } else {
            match pin_record_of(version) {
                Some(contents) => Ok((version, contents)),
                None => Err(PinFailure::Encode),
            }
        },
    }
}

/// What is said of a pin record that does not read back as it was written.
pub open spec fn unreadable_record_text() -> Seq<char> {
    "The pin record does not read back as it was written."@
}

/// What to tell the user after a version was pinned.
pub open spec fn pinned_message_of(version: Seq<char>, pin_file: Seq<char>) -> Seq<char> {
    "Pinned Go version "@ + version + " to "@ + pin_file
}

/// Whether `r` is what writing the pin record comes to: `ctx` is asked to
/// write `contents` to the pin record of `dir`; its failure is handed on,
/// and else the user is told of the version and the record's path.
pub open spec fn wrote_pin<C: PinContext>(
    ctx: &C,
    dir: TreePath,
    version: Seq<char>,
    contents: Seq<char>,
    r: Result<String, PinError>,
) -> bool {
    exists|path: TreePath, text: &str, wrote: Result<(), String>|
        path@ == dir@.join(paths::pin_name()) && text@ == contents && #[trigger] call_ensures(
            C::write_pin_file,
            (ctx, &path, text),
            wrote,
        ) && match wrote {
            Err(reason) => r == Err::<String, PinError>(PinError::Context { reason }),
            Ok(_) => r is Ok && r->Ok_0@ == pinned_message_of(
                version,
                paths::rendered(path@, "/"@),
            ),
        }
}

/// Whether `r` is what pinning `version` in the project of `ctx` comes to:
/// `ctx` is asked for the project's directory; its failure is handed on,
/// and else the record is written there.
pub open spec fn pinned_in<C: PinContext>(
    ctx: &C,
    version: Seq<char>,
    contents: Seq<char>,
    r: Result<String, PinError>,
) -> bool {
    exists|dir: Result<TreePath, String>| #[trigger]
        call_ensures(C::current_dir, (ctx,), dir) && match dir {
            Err(reason) => r == Err::<String, PinError>(PinError::Context { reason }),
            Ok(d) => wrote_pin(ctx, d, version, contents, r),
        }
}

/// Whether `r` is what the request `tool` comes to with `ctx`: a malformed
/// request fails before `ctx` is asked anything; else `ctx` is asked for
/// the installed versions; its failure is handed on; a version that is not
/// installed, or whose record cannot be put into words, fails before
/// anything is written; else the version is pinned in the project.
pub open spec fn pinned_by<C: PinContext>(ctx: &C, tool: Seq<char>, r: Result<String, PinError>) -> bool {
    if pinned_version_of(tool) is None {
        r == Err::<String, PinError>(PinError::InvalidFormat)
    } else {
        exists|installed: Result<Vec<String>, String>| #[trigger]
            call_ensures(C::installed_versions, (ctx,), installed) && match installed {
                Err(reason) => r == Err::<String, PinError>(PinError::Context { reason }),
                Ok(list) => match pin_plan_of(tool, list@) {
                    Err(f) => r is Err && r->Err_0@ == f,
                    Ok((version, contents)) => pinned_in(ctx, version, contents, r),
                },
            }
    }
}

/// What to say of a pin record that does not read back as it was written.
fn unreadable_record() -> (r: &'static str)
    ensures
        r@ == unreadable_record_text(),
{
    "The pin record does not read back as it was written."
}

/// The text of the pin record for a version. The record is read back before
/// it is handed out: what is handed out names the version.
pub fn pin_record(version: &str) -> (r: Result<String, PinError>)
    ensures
        match pin_record_of(version@) {
            Some(contents) => r is Ok && r->Ok_0@ == contents,
            None => r is Err && r->Err_0@ == PinFailure::Encode,
        },
        (foreign::json_object_text("go"@, version@) is Some && pin_record_of(version@) is None)
            ==> (r matches Err(PinError::Encode { reason }) && reason@
            == unreadable_record_text()),
{
    match foreign::write_json_object("go", version) {
        Ok(contents) => match extract_go_version(contents.as_str()) {
            Ok(Some(read_back)) => if text::same_text(read_back.as_str(), version) {
                Ok(contents)
            } else {
                Err(PinError::Encode { reason: String::from_str(unreadable_record()) })
            },
            _ => Err(PinError::Encode { reason: String::from_str(unreadable_record()) }),
        },
        Err(e) => Err(PinError::Encode { reason: foreign::json_error_text(&e) }),
    }
}

/// Plans a pin: the version that `tool` names, where it is installed, and
/// the text of its record.
pub fn plan_pin(tool: &str, installed: &Vec<String>) -> (r: Result<PinPlan, PinError>)
    ensures
        match pin_plan_of(tool@, installed@) {
            Ok((version, contents)) => r is Ok && r->Ok_0.version@ == version
                && r->Ok_0.contents@ == contents,
            Err(e) => r is Err && r->Err_0@ == e,
        },
{
    if !text::starts_with(tool, "go@") {
        return Err(PinError::InvalidFormat);
    }
    let version = text::strip_leading(tool, "go@");
    if !version_is_installed(installed, version) {
        return Err(PinError::NotInstalled { version: String::from_str(version) });
    }
    match pin_record(version) {
        Ok(contents) => Ok(PinPlan { version: String::from_str(version), contents }),
        Err(e) => Err(e),
    }
}

/// What to tell the user after a version was pinned.
pub fn pinned_message(version: &str, pin_file: &str) -> (r: String)
    ensures
        r@ == pinned_message_of(version@, pin_file@),
{
    let mut m = String::from_str("Pinned Go version ");
    m.append(version);
    m.append(" to ");
    m.append(pin_file);
    m
}

/// Pins the version that `tool` names to the project of `ctx`: checks that
/// it is installed, writes the pin record into the project's directory, and
/// answers with the message for the user. Nothing is written where the
/// request is malformed or the version not installed. The path in the
/// message is written with `/` between its names.
pub fn pin_go_version<C: PinContext>(ctx: &C, tool: &str) -> (r: Result<String, PinError>)
    ensures
        pinned_by(ctx, tool@, r),
{
    if !text::starts_with(tool, "go@") {
        return Err(PinError::InvalidFormat);
    }
    let installed = match ctx.installed_versions() {
        Ok(v) => v,
        Err(reason) => {
            return Err(PinError::Context { reason });
        },
    };
    let plan = match plan_pin(tool, &installed) {
        Ok(plan) => plan,
        Err(e) => {
            return Err(e);
        },
    };
    let project_dir = match ctx.current_dir() {
        Ok(dir) => dir,
        Err(reason) => {
            let r = Err(PinError::Context { reason });
            assert(pinned_in(ctx, plan.version@, plan.contents@, r));
            return r;
        },
    };
    let pin_file = paths::pin_file(&project_dir);
    let wrote = ctx.write_pin_file(&pin_file, plan.contents.as_str());
    let r = match wrote {
        Ok(_) => {
            let shown = pin_file.render("/");
            Ok(pinned_message(plan.version.as_str(), shown.as_str()))
        },
        Err(reason) => Err(PinError::Context { reason }),
    };
    assert(wrote_pin(ctx, project_dir, plan.version@, plan.contents@, r));
    assert(pinned_in(ctx, plan.version@, plan.contents@, r));
    r
}

impl PinError {
    /// The failure in words, with what to do about it.
    pub fn message(&self) -> (r: String)
        ensures
            self@ == PinFailure::InvalidFormat ==> r@
                == "Invalid format. Use `golta pin go@<version>`."@,
            self matches PinError::NotInstalled { version } ==> r@ == "Go version '"@ + version@
                + "' is not installed. Please install it first with `golta install go@"@
                + version@ + "`."@,
            self matches PinError::Encode { reason } ==> r@ == reason@,
            self matches PinError::Context { reason } ==> r@ == reason@,
    {
        match self {
            PinError::InvalidFormat => String::from_str(
                "Invalid format. Use `golta pin go@<version>`.",
            ),
            PinError::NotInstalled { version } => {
                let mut m = String::from_str("Go version '");
                m.append(version.as_str());
                m.append("' is not installed. Please install it first with `golta install go@");
                m.append(version.as_str());
                m.append("`.");
                m
            },
            PinError::Encode { reason } => reason.clone(),
            PinError::Context { reason } => reason.clone(),
        }
    }
}

/// What is pinned is what is resolved: where a pin was planned for a
/// request and its record stands in the directory that the resolution starts
/// from, the resolution is the pinned version, with the pin as its source,
/// whatever the directories above and the default hold.
pub proof fn pinned_version_is_resolved(
    tool: Seq<char>,
    installed: Seq<String>,
    levels: Seq<crate::pinned_version::LevelSeen>,
    default: crate::pinned_version::Seen,
)
    requires
        pin_plan_of(tool, installed) is Ok,
        levels.len() > 0,
        levels[0].pin == crate::pinned_version::Seen::Present(pin_plan_of(tool, installed)->Ok_0.1),
    ensures
        crate::active_version::resolution(levels, default) == Ok::<
            (Seq<char>, crate::pinned_version::VersionSource),
            crate::pinned_version::Failure,
        >((pin_plan_of(tool, installed)->Ok_0.0, crate::pinned_version::VersionSource::Pin)),
        pinned_version_of(tool) == Some(pin_plan_of(tool, installed)->Ok_0.0),
{
    let (version, contents) = pin_plan_of(tool, installed)->Ok_0;
    crate::active_version::pin_wins_over_default(levels, default, contents, version);
}

} // verus!
