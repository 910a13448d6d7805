//! Removing an installed version: the checks before it, the warnings it
//! owes, and the order of what is done.

use crate::paths;
use crate::paths::TreePath;
use crate::text;
use vstd::prelude::*;

verus! {

/// What is done about a default that names the version to remove.
#[derive(Debug, Clone, Copy, PartialEq, Eq, Structural)]
pub enum UninstallPolicy {
    /// Remove the version, clear the default, and warn.
    ClearDefault,
    /// Refuse to remove the version.
    Refuse,
}

/// Why a version is not removed.
#[derive(Debug, Clone, PartialEq, Eq)]
pub enum UninstallError {
    /// The request does not have the form `go@<version>`.
    UnsupportedTool,
    /// The version is not installed.
    NotInstalled { version: String },
    /// The version is the default, and the policy refuses to remove it.
    IsDefault { version: String },
}

/// Why a version is not removed, as a value.
pub enum UninstallFailure {
    UnsupportedTool,
    NotInstalled(Seq<char>),
    IsDefault(Seq<char>),
}

impl View for UninstallError {
    type V = UninstallFailure;

    open spec fn view(&self) -> UninstallFailure {
        match self {
            UninstallError::UnsupportedTool => UninstallFailure::UnsupportedTool,
            UninstallError::NotInstalled { version } => UninstallFailure::NotInstalled(version@),
            UninstallError::IsDefault { version } => UninstallFailure::IsDefault(version@),
        }
    }
}

/// One step of a removal.
#[derive(Debug, Clone, PartialEq, Eq)]
pub enum UninstallStep {
    /// Tell the user.
    Say { text: String },
    /// Remove the default record.
    ClearDefault,
    /// Remove the version's directory with all that is in it.
    RemoveVersion,
}

/// One step of a removal, as a value.
pub enum StepView {
    Say(Seq<char>),
    ClearDefault,
    RemoveVersion,
}

impl View for UninstallStep {
    type V = StepView;

    open spec fn view(&self) -> StepView {
        match self {
            UninstallStep::Say { text } => StepView::Say(text@),
            UninstallStep::ClearDefault => StepView::ClearDefault,
            UninstallStep::RemoveVersion => StepView::RemoveVersion,
        }
    }
}

/// The steps of a removal, as values.
pub open spec fn steps_view(steps: Seq<UninstallStep>) -> Seq<StepView> {
    Seq::new(steps.len(), |i: int| steps[i]@)
}

/// The version that a request of the form `go@<version>` names.
pub open spec fn requested_version(tool: Seq<char>) -> Option<Seq<char>> {
    if "go@"@.is_prefix_of(tool) {
        Some(text::without_leading(tool, "go@"@))
    } else {
        None
    }
}

/// Whether the default record names `version`.
pub open spec fn default_names(default: Option<Seq<char>>, version: Seq<char>) -> bool {
    default matches Some(recorded) && text::trimmed(recorded) == version
}

/// The warning that the default is cleared.
pub open spec fn default_warning_of(version: Seq<char>) -> Seq<char> {
    "Warning: uninstalling the default Go version ("@ + version
        + "). The global default will be cleared."@
}

/// The warning that a pinned version is removed.
pub open spec fn pin_warning_of(version: Seq<char>, pin_file: Seq<char>) -> Seq<char> {
    "Warning: uninstalling version "@ + version + ", which is pinned in "@ + pin_file
}

/// The report that the version is removed.
pub open spec fn report_of(version: Seq<char>) -> Seq<char> {
    "Go "@ + version + " has been uninstalled."@
}

/// The refusal to remove the default.
pub open spec fn refusal_of(version: Seq<char>) -> Seq<char> {
    "Cannot uninstall Go "@ + version
        + " because it is the default version. Run `golta default clear` or set another default first."@
}

/// The warning that a pin owes: the pin found names the version.
pub open spec fn pin_warning(version: Seq<char>, pinned: Option<(Seq<char>, Seq<char>)>) -> Option<
    Seq<char>,
> {
    match pinned {
        Some((pinned_version, pin_file)) => if pinned_version == version {
            Some(pin_warning_of(version, pin_file))
        } else {
            None
        },
        None => None,
    }
}

/// The steps about the default: the warning and the clearing, where the
/// default names the version.
pub open spec fn default_steps(version: Seq<char>, default: Option<Seq<char>>) -> Seq<StepView> {
    if default_names(default, version) {
        seq![StepView::Say(default_warning_of(version)), StepView::ClearDefault]
    } else {
        Seq::empty()
    }
}

/// The steps about the pin: the warning, where it is owed.
pub open spec fn pin_steps(version: Seq<char>, pinned: Option<(Seq<char>, Seq<char>)>) -> Seq<
    StepView,
> {
    match pin_warning(version, pinned) {
        Some(w) => seq![StepView::Say(w)],
        None => Seq::empty(),
    }
}

/// What a removal comes to: the steps in their order, or the refusal. The
/// version must be named as `go@<version>` and be installed. Where it is the
/// default, the policy decides between clearing the default with a warning
/// and refusing. A pin on the version is warned of. The directory is removed
/// after all warnings, and the report comes last.
pub open spec fn uninstall_plan_of(
    tool: Seq<char>,
    installed: bool,
    default: Option<Seq<char>>,
    pinned: Option<(Seq<char>, Seq<char>)>,
    policy: UninstallPolicy,
) -> Result<Seq<StepView>, UninstallFailure> {
    match requested_version(tool) {
        None => Err(UninstallFailure::UnsupportedTool),
        Some(version) => if !installed {
            Err(UninstallFailure::NotInstalled(version))
        } else if default_names(default, version) && policy == UninstallPolicy::Refuse {
            Err(UninstallFailure::IsDefault(version))
        } else {
            Ok(
                default_steps(version, default) + pin_steps(version, pinned) + seq![
                    StepView::RemoveVersion,
                    StepView::Say(report_of(version)),
                ],
            )
        },
    }
}

/// The text of an optional string slice.
pub open spec fn slice_text(s: Option<&str>) -> Option<Seq<char>> {
    match s {
        Some(v) => Some(v@),
        None => None,
    }
}

/// The texts of an optional pair of string slices.
pub open spec fn pair_text(p: Option<(&str, &str)>) -> Option<(Seq<char>, Seq<char>)> {
    match p {
        Some((a, b)) => Some((a@, b@)),
        None => None,
    }
}

/// The directory of a version and the default record, below `home`.
pub fn build_paths(home: &TreePath, version: &str) -> (r: (TreePath, TreePath))
    ensures
        r.0@ == paths::version_dir_of(home@, version@),
        r.1@ == paths::default_file_of(home@),
{
    (paths::version_dir(home, version), paths::default_file(home))
}

/// Whether the default record, if there is one, names `version`.
pub fn default_matches(version: &str, default: Option<&str>) -> (r: bool)
    ensures
        r == default_names(slice_text(default), version@),
{
    match default {
        Some(recorded) => text::same_text(text::trim(recorded), version),
        None => false,
    }
}

/// The warning that the default is cleared, where the default record names
/// `version`; nothing where it does not.
pub fn clear_default_if_matches(version: &str, default: Option<&str>) -> (r: Option<String>)
    ensures
        default_names(slice_text(default), version@) ==> r is Some && r->Some_0@
            == default_warning_of(version@),
        !default_names(slice_text(default), version@) ==> r is None,
{
    if default_matches(version, default) {
        let mut w = String::from_str("Warning: uninstalling the default Go version (");
        w.append(version);
        w.append("). The global default will be cleared.");
        Some(w)
    } else {
        None
    }
}

/// The warning that a pinned version is removed, where the pin found names
/// `version`; nothing where it does not, or no pin was found.
pub fn warn_if_pinned(version: &str, pinned: Option<(&str, &str)>) -> (r: Option<String>)
    ensures
        match pin_warning(version@, pair_text(pinned)) {
            Some(w) => r is Some && r->Some_0@ == w,
            None => r is None,
        },
{
    match pinned {
        Some((pinned_version, pin_file)) => {
            if text::same_text(pinned_version, version) {
                let mut w = String::from_str("Warning: uninstalling version ");
                w.append(version);
                w.append(", which is pinned in ");
                w.append(pin_file);
                Some(w)
            } else {
                None
            }
        },
        None => None,
    }
}

/// Plans the removal of the version that `tool` names. `installed` says
/// whether its directory is there, `default` is the text of the default
/// record, `pinned` the pin found from the current directory with the path
/// of its record. A pin that could not be looked up is handed in as none:
/// it holds up nothing.
pub fn plan_uninstall(
    tool: &str,
    installed: bool,
    default: Option<&str>,
    pinned: Option<(&str, &str)>,
    policy: UninstallPolicy,
) -> (r: Result<Vec<UninstallStep>, UninstallError>)
    ensures
        match uninstall_plan_of(tool@, installed, slice_text(default), pair_text(pinned), policy) {
            Ok(steps) => r is Ok && steps_view(r->Ok_0@) == steps,
            Err(e) => r is Err && r->Err_0@ == e,
        },
        r matches Ok(steps) ==> steps.len() >= 2 && steps@[steps.len() - 2]@
            == StepView::RemoveVersion && (forall|i: int|
            0 <= i < steps.len() - 2 ==> (#[trigger] steps@[i])@ != StepView::RemoveVersion),
        r is Ok && requested_version(tool@) is Some && default_names(
            slice_text(default),
            requested_version(tool@)->Some_0,
        ) ==> policy == UninstallPolicy::ClearDefault && r->Ok_0@[0]@ == StepView::Say(
            default_warning_of(requested_version(tool@)->Some_0),
        ) && r->Ok_0@[1]@ == StepView::ClearDefault,
{
    if !text::starts_with(tool, "go@") {
        return Err(UninstallError::UnsupportedTool);
    }
    let version = text::strip_leading(tool, "go@");
    if !installed {
        return Err(UninstallError::NotInstalled { version: String::from_str(version) });
    }
    let mut steps: Vec<UninstallStep> = Vec::new();
    assert(steps_view(steps@) =~= Seq::<StepView>::empty());
    match clear_default_if_matches(version, default) {
        Some(warning) => {
            match policy {
                UninstallPolicy::Refuse => {
                    return Err(UninstallError::IsDefault { version: String::from_str(version) });
                },
                UninstallPolicy::ClearDefault => {},
            }
            steps.push(UninstallStep::Say { text: warning });
            steps.push(UninstallStep::ClearDefault);
            assert(steps_view(steps@) =~= default_steps(version@, slice_text(default)));
        },
        None => {},
    }
    let ghost first = steps_view(steps@);
    match warn_if_pinned(version, pinned) {
        Some(warning) => {
            steps.push(UninstallStep::Say { text: warning });
        },
        None => {},
    }
    assert(steps_view(steps@) =~= first + pin_steps(version@, pair_text(pinned)));
    let ghost second = steps_view(steps@);
    steps.push(UninstallStep::RemoveVersion);
    let mut report = String::from_str("Go ");
    report.append(version);
    report.append(" has been uninstalled.");
    steps.push(UninstallStep::Say { text: report });
    assert(steps_view(steps@) =~= second + seq![
        StepView::RemoveVersion,
        StepView::Say(report_of(version@)),
    ]);
    Ok(steps)
}

impl UninstallError {
    /// The failure in words, with what to do about it.
    pub fn message(&self) -> (r: String)
        ensures
            self@ == UninstallFailure::UnsupportedTool ==> r@
                == "Only Go uninstall is supported currently. Use format 'go@<version>'."@,
            self matches UninstallError::NotInstalled { version } ==> r@ == "Go "@ + version@
                + " is not installed."@,
            self matches UninstallError::IsDefault { version } ==> r@ == refusal_of(version@),
    {
        match self {
            UninstallError::UnsupportedTool => String::from_str(
                "Only Go uninstall is supported currently. Use format 'go@<version>'.",
            ),
            UninstallError::NotInstalled { version } => {
                let mut m = String::from_str("Go ");
                m.append(version.as_str());
                m.append(" is not installed.");
                m
            },
            UninstallError::IsDefault { version } => {
                let mut m = String::from_str("Cannot uninstall Go ");
                m.append(version.as_str());
                m.append(
                    " because it is the default version. Run `golta default clear` or set another default first.",
                );
                m
            },
        }
    }
}

/// The default is never removed from under the user in silence: a removal
/// of the version that the default names is either refused, or begins with
/// the warning and the clearing of the default.
pub proof fn default_is_never_dropped_silently(
    tool: Seq<char>,
    default: Option<Seq<char>>,
    pinned: Option<(Seq<char>, Seq<char>)>,
    policy: UninstallPolicy,
)
    requires
        requested_version(tool) is Some,
        default_names(default, requested_version(tool)->Some_0),
    ensures
        policy == UninstallPolicy::Refuse ==> uninstall_plan_of(tool, true, default, pinned, policy)
            == Err::<Seq<StepView>, UninstallFailure>(
            UninstallFailure::IsDefault(requested_version(tool)->Some_0),
        ),
        policy == UninstallPolicy::ClearDefault ==> uninstall_plan_of(
            tool,
            true,
            default,
            pinned,
            policy,
        ) is Ok && uninstall_plan_of(tool, true, default, pinned, policy)->Ok_0[0] == StepView::Say(
            default_warning_of(requested_version(tool)->Some_0),
        ) && uninstall_plan_of(tool, true, default, pinned, policy)->Ok_0[1]
            == StepView::ClearDefault,
{
}

/// A removal touches the default only where the default names the version.
pub proof fn other_defaults_are_left_alone(
    tool: Seq<char>,
    default: Option<Seq<char>>,
    pinned: Option<(Seq<char>, Seq<char>)>,
    policy: UninstallPolicy,
    i: int,
)
    requires
        requested_version(tool) is Some,
        !default_names(default, requested_version(tool)->Some_0),
        uninstall_plan_of(tool, true, default, pinned, policy) is Ok,
        0 <= i < uninstall_plan_of(tool, true, default, pinned, policy)->Ok_0.len(),
    ensures
        uninstall_plan_of(tool, true, default, pinned, policy)->Ok_0[i] != StepView::ClearDefault,
{
}

} // verus!
