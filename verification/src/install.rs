//! Installation of a toolchain version: reading the request, naming the
//! archive to fetch, and the steps of one installation as a state machine
//! whose outside work (probing, fetching, unpacking, renaming) is done by the
//! caller and reported back as events.

use crate::foreign;
use crate::text;
use vstd::prelude::*;

verus! {

/// Why an installation did not take place.
#[derive(Debug, Clone, Copy, PartialEq, Eq, Structural)]
pub enum InstallError {
    /// The request names neither the toolchain nor one of its versions.
    InvalidFormat,
    /// The server did not say how long the archive is.
    MissingContentLength,
    /// The archive is longer than this machine can hold in memory.
    TooLarge,
    /// Something already stands where the unpacked toolchain belongs.
    DestinationExists,
    /// The caller reported that a step failed.
    StepFailed,
    /// An event arrived that the step before it cannot lead to.
    OutOfOrder,
    /// The toolchain command that installs an auxiliary tool failed.
    CommandFailed,
}

/// How an installation ended well.
#[derive(Debug, Clone, Copy, PartialEq, Eq, Structural)]
pub enum InstallOutcome {
    /// The version was complete on disk before anything was done.
    AlreadyInstalled,
    /// The version was fetched, unpacked and put in place.
    Installed,
}

/// Where one installation stands: which answer it waits for.
#[derive(Debug, Clone, Copy, PartialEq, Eq, Structural)]
pub enum InstallState {
    /// Nothing has been asked yet.
    Idle,
    /// Asked whether the version is already complete on disk.
    Probing,
    /// Asked for the install directory to be made.
    Preparing,
    /// Asked for the download to be opened.
    Requesting,
    /// Reading the archive: `received` of `total` bytes are in.
    Receiving { total: u64, received: u64 },
    /// Asked for the archive to be unpacked into the staging directory.
    Extracting,
    /// Asked whether anything stands at the final place.
    Checking,
    /// Asked for the unpacked toolchain to be renamed into its final place.
    Placing,
    /// The installation has ended, well or not.
    Finished,
}

/// What the caller reports back.
#[derive(Debug, Clone, Copy, PartialEq, Eq, Structural)]
pub enum InstallEvent {
    /// The installation is to begin.
    Start,
    /// Whether the install directory exists and holds the toolchain's binary.
    Probed { complete: bool },
    /// The install directory exists now.
    DirectoryReady,
    /// The server answered; `content_length` is the length it announced.
    ResponseOpened { content_length: Option<u64> },
    /// `len` more bytes of the archive arrived.
    Chunk { len: u64 },
    /// The archive has arrived whole.
    BodyEnded,
    /// The archive is unpacked in the staging directory.
    Extracted,
    /// Whether anything stands at the final place.
    DestinationChecked { exists: bool },
    /// The toolchain stands at its final place.
    Placed,
    /// The step that was asked for failed.
    Failed,
}

/// What the caller is asked to do next.
#[derive(Debug, Clone, Copy, PartialEq, Eq, Structural)]
pub enum InstallAction {
    /// Look whether the version is complete on disk.
    ProbeInstalled,
    /// Make the install directory.
    CreateInstallDir,
    /// Open the download of the archive.
    OpenDownload,
    /// Show that `received` of `total` bytes are in, and read on.
    ReadChunk { received: u64, total: u64 },
    /// Unpack the archive into the staging directory.
    Extract,
    /// Look whether anything stands at the final place.
    CheckDestination,
    /// Rename the unpacked toolchain into its final place.
    Place,
    /// Stop: the installation ended well.
    Done(InstallOutcome),
    /// Stop: the installation failed.
    Abort(InstallError),
}

/// What is done with one entry of a zip archive.
#[derive(Debug, Clone, Copy, PartialEq, Eq, Structural)]
pub enum ZipEntryAction {
    /// The entry has no name: pass it over.
    Skip,
    /// Make the directory that the entry names, with its parents.
    MakeDirectory,
    /// Make the parents of the file that the entry names, and write it.
    WriteFile,
}

/// What is done with an entry of a zip archive, by its name and kind.
pub open spec fn zip_entry_action_of(name: Seq<char>, is_dir: bool) -> ZipEntryAction {
    if name.len() == 0 {
        ZipEntryAction::Skip
    } else if is_dir {
        ZipEntryAction::MakeDirectory
    } else {
        ZipEntryAction::WriteFile
    }
}

/// One entry of a zip archive with what is done with it.
#[derive(Debug, Clone, PartialEq, Eq)]
pub struct ZipStep {
    /// The entry's place in the archive.
    pub index: usize,
    /// The entry's name: its path inside the archive.
    pub name: String,
    /// What is done with the entry.
    pub action: ZipEntryAction,
}

impl View for ZipStep {
    type V = (int, Seq<char>, ZipEntryAction);

    open spec fn view(&self) -> (int, Seq<char>, ZipEntryAction) {
        (self.index as int, self.name@, self.action)
    }
}

/// Why a zip archive cannot be unpacked.
#[derive(Debug, Clone, PartialEq, Eq)]
pub enum ExtractError {
    /// The entry at `index` cannot be read.
    Unreadable { index: usize, reason: String },
}

/// The steps of an unpacking, as values.
pub open spec fn zip_steps_view(steps: Seq<ZipStep>) -> Seq<(int, Seq<char>, ZipEntryAction)> {
    Seq::new(steps.len(), |i: int| steps[i]@)
}

/// What is done to unpack an archive with the entries `names`: for each
/// entry, in the archive's order, what its name and kind ask for.
pub open spec fn zip_plan_of(names: Seq<Seq<char>>) -> Seq<(int, Seq<char>, ZipEntryAction)> {
    Seq::new(
        names.len(),
        |i: int| (i, names[i], zip_entry_action_of(names[i], foreign::names_directory(names[i]))),
    )
}

/// The version request that an install argument makes: what follows `go@`,
/// or, for the bare toolchain name, the version that the project's manifest
/// asks for, if it asks for one, else `latest`.
pub open spec fn install_spec_of(tool: Seq<char>, manifest: Option<Seq<char>>) -> Result<
    Seq<char>,
    InstallError,
> {
    if "go@"@.is_prefix_of(tool) {
        Ok(text::without_leading(tool, "go@"@))
    } else if tool == "go"@ {
        match manifest {
            Some(v) => if v.len() > 0 {
                Ok(v)
            } else {
                Ok("latest"@)
            },
            None => Ok("latest"@),
        }
    } else {
        Err(InstallError::InvalidFormat)
    }
}

/// The address of the archive of a version for a platform.
pub open spec fn download_url_of(version: Seq<char>, os_arch: Seq<char>, format: Seq<char>) -> Seq<
    char,
> {
    "https://golang.org/dl/go"@ + version + "."@ + os_arch + "."@ + format
}

/// The sum of two byte counts, held at the greatest count there is.
pub open spec fn capped_sum(a: u64, b: u64) -> u64 {
    if a + b > u64::MAX {
        u64::MAX
    } else {
        (a + b) as u64
    }
}

/// The step that follows an event: the new state and what to do next.
///
/// A complete version on disk ends the installation at once. A download is
/// read only when its length is announced and fits in memory. The toolchain
/// is put in place only when nothing stands there. A failed step, or an
/// event out of turn, ends the installation.
pub open spec fn install_next(state: InstallState, event: InstallEvent) -> (
    InstallState,
    InstallAction,
) {
    match (state, event) {
        (InstallState::Finished, _) => (
            InstallState::Finished,
            InstallAction::Abort(InstallError::OutOfOrder),
        ),
        (_, InstallEvent::Failed) => (
            InstallState::Finished,
            InstallAction::Abort(InstallError::StepFailed),
        ),
        (InstallState::Idle, InstallEvent::Start) => (
            InstallState::Probing,
            InstallAction::ProbeInstalled,
        ),
        (InstallState::Probing, InstallEvent::Probed { complete }) => if complete {
            (InstallState::Finished, InstallAction::Done(InstallOutcome::AlreadyInstalled))
        } else {
            (InstallState::Preparing, InstallAction::CreateInstallDir)
        },
        (InstallState::Preparing, InstallEvent::DirectoryReady) => (
            InstallState::Requesting,
            InstallAction::OpenDownload,
        ),
        (InstallState::Requesting, InstallEvent::ResponseOpened { content_length }) => match content_length {
            None => (
                InstallState::Finished,
                InstallAction::Abort(InstallError::MissingContentLength),
            ),
            Some(total) => if total > usize::MAX {
                (InstallState::Finished, InstallAction::Abort(InstallError::TooLarge))
            } else {
                (
                    InstallState::Receiving { total, received: 0 },
                    InstallAction::ReadChunk { received: 0, total },
                )
            },
        },
        (InstallState::Receiving { total, received }, InstallEvent::Chunk { len }) => (
            InstallState::Receiving { total, received: capped_sum(received, len) },
            InstallAction::ReadChunk { received: capped_sum(received, len), total },
        ),
        (InstallState::Receiving { total, received }, InstallEvent::BodyEnded) => (
            InstallState::Extracting,
            InstallAction::Extract,
        ),
        (InstallState::Extracting, InstallEvent::Extracted) => (
            InstallState::Checking,
            InstallAction::CheckDestination,
        ),
        (InstallState::Checking, InstallEvent::DestinationChecked { exists }) => if exists {
            (InstallState::Finished, InstallAction::Abort(InstallError::DestinationExists))
        } else {
            (InstallState::Placing, InstallAction::Place)
        },
        (InstallState::Placing, InstallEvent::Placed) => (
            InstallState::Finished,
            InstallAction::Done(InstallOutcome::Installed),
        ),
        _ => (InstallState::Finished, InstallAction::Abort(InstallError::OutOfOrder)),
    }
}

/// Whether an action changes what is on disk or reaches the network.
pub open spec fn reaches_outside(action: InstallAction) -> bool {
    match action {
        InstallAction::CreateInstallDir => true,
        InstallAction::OpenDownload => true,
        InstallAction::ReadChunk { .. } => true,
        InstallAction::Extract => true,
        InstallAction::Place => true,
        _ => false,
    }
}

/// The state after a run of events.
pub open spec fn state_after(start: InstallState, events: Seq<InstallEvent>) -> InstallState
    decreases events.len(),
{
    if events.len() == 0 {
        start
    } else {
        install_next(state_after(start, events.drop_last()), events.last()).0
    }
}

/// The actions asked for in a run of events, one for each event.
pub open spec fn actions_of(start: InstallState, events: Seq<InstallEvent>) -> Seq<InstallAction>
    decreases events.len(),
{
    if events.len() == 0 {
        Seq::empty()
    } else {
        actions_of(start, events.drop_last()).push(
            install_next(state_after(start, events.drop_last()), events.last()).1,
        )
    }
}

/// The version request that an install argument makes.
pub fn parse_install_spec(tool: &str, manifest: Option<&str>) -> (r: Result<String, InstallError>)
    ensures
        match install_spec_of(
            tool@,
            match manifest {
                Some(v) => Some(v@),
                None => None,
            },
        ) {
            Ok(v) => r is Ok && r->Ok_0@ == v,
            Err(e) => r == Err::<String, InstallError>(e),
        },
{
    if text::starts_with(tool, "go@") {
        Ok(String::from_str(text::strip_leading(tool, "go@")))
    } else if text::same_text(tool, "go") {
        match manifest {
            Some(v) => if v.unicode_len() > 0 {
                Ok(String::from_str(v))
            } else {
                Ok(String::from_str("latest"))
            },
            None => Ok(String::from_str("latest")),
        }
    } else {
        Err(InstallError::InvalidFormat)
    }
}

/// The address of the archive of a version for a platform.
pub fn download_url(version: &str, os_arch: &str, format: &str) -> (r: String)
    ensures
        r@ == download_url_of(version@, os_arch@, format@),
{
    let mut url = String::from_str("https://golang.org/dl/go");
    url.append(version);
    url.append(".");
    url.append(os_arch);
    url.append(".");
    url.append(format);
    url
}

/// What is done with an entry of a zip archive, by its name and kind.
pub fn zip_entry_action(name: &str, is_dir: bool) -> (r: ZipEntryAction)
    ensures
        r == zip_entry_action_of(name@, is_dir),
{
    if name.unicode_len() == 0 {
        ZipEntryAction::Skip
    } else if is_dir {
        ZipEntryAction::MakeDirectory
    } else {
        ZipEntryAction::WriteFile
    }
}

/// Plans the unpacking of a zip archive: reads each entry's name and kind
/// and decides what is done with it. The plan is made exactly where every
/// entry of the archive opens; else the failure names the first entry that
/// does not, and nothing is planned: the archive is then not unpacked at all.
pub fn plan_zip_extraction(archive: &mut zip::ZipArchive<std::io::Cursor<Vec<u8>>>) -> (r: Result<
    Vec<ZipStep>,
    ExtractError,
>)
    ensures
        foreign::zip_names(*final(archive)) == foreign::zip_names(*old(archive)),
        foreign::zip_opens(*final(archive)) == foreign::zip_opens(*old(archive)),
        r is Ok <==> forall|i: int|
            0 <= i < foreign::zip_names(*old(archive)).len() ==> foreign::zip_opens(
                *old(archive),
            )[i],
        r matches Ok(steps) ==> zip_steps_view(steps@) == zip_plan_of(
            foreign::zip_names(*old(archive)),
        ),
        r matches Err(ExtractError::Unreadable { index, reason }) ==> index < foreign::zip_names(
            *old(archive),
        ).len() && !foreign::zip_opens(*old(archive))[index as int] && forall|j: int|
            0 <= j < index ==> foreign::zip_opens(*old(archive))[j],
{
    let ghost names = foreign::zip_names(*archive);
    let ghost opens = foreign::zip_opens(*archive);
    let count = foreign::zip_len(archive);
    let mut steps: Vec<ZipStep> = Vec::new();
    let mut i: usize = 0;
    while i < count
        invariant
            i <= count,
            count == names.len(),
            names == foreign::zip_names(*old(archive)),
            foreign::zip_names(*archive) == names,
            opens == foreign::zip_opens(*old(archive)),
            foreign::zip_opens(*archive) == opens,
            forall|k: int| 0 <= k < i ==> opens[k],
            steps.len() == i,
            forall|k: int| 0 <= k < i ==> (#[trigger] steps@[k])@ == zip_plan_of(names)[k],
        decreases count - i,
    {
        match foreign::zip_entry(archive, i) {
            Ok((name, is_dir)) => {
                let action = zip_entry_action(name.as_str(), is_dir);
                steps.push(ZipStep { index: i, name, action });
            },
            Err(e) => {
                return Err(
                    ExtractError::Unreadable { index: i, reason: foreign::zip_error_text(&e) },
                );
            },
        }
        i += 1;
    }
    assert(zip_steps_view(steps@) =~= zip_plan_of(names));
    Ok(steps)
}

/// The sum of two byte counts, held at the greatest count there is.
pub fn add_capped(a: u64, b: u64) -> (r: u64)
    ensures
        r == capped_sum(a, b),
{
    if a > u64::MAX - b {
        u64::MAX
    } else {
        a + b
    }
}

/// Takes one step of an installation: from the state and the event that the
/// caller reports, the new state and what the caller is to do next.
pub fn install_step(state: InstallState, event: InstallEvent) -> (r: (InstallState, InstallAction))
    ensures
        r == install_next(state, event),
        r.1 == InstallAction::Place ==> event == (InstallEvent::DestinationChecked {
            exists: false,
        }),
        event == (InstallEvent::Probed { complete: true }) ==> !reaches_outside(r.1),
        r.1 is Done || r.1 is Abort <==> r.0 == InstallState::Finished,
{
    match state {
        InstallState::Finished => (
            InstallState::Finished,
            InstallAction::Abort(InstallError::OutOfOrder),
        ),
        _ => match event {
            InstallEvent::Failed => (
                InstallState::Finished,
                InstallAction::Abort(InstallError::StepFailed),
            ),
            InstallEvent::Start => match state {
                InstallState::Idle => (InstallState::Probing, InstallAction::ProbeInstalled),
                _ => out_of_order(),
            },
            InstallEvent::Probed { complete } => match state {
                InstallState::Probing => if complete {
                    (InstallState::Finished, InstallAction::Done(InstallOutcome::AlreadyInstalled))
                } else {
                    (InstallState::Preparing, InstallAction::CreateInstallDir)
                },
                _ => out_of_order(),
            },
            InstallEvent::DirectoryReady => match state {
                InstallState::Preparing => (InstallState::Requesting, InstallAction::OpenDownload),
                _ => out_of_order(),
            },
            InstallEvent::ResponseOpened { content_length } => match state {
                InstallState::Requesting => match content_length {
                    None => (
                        InstallState::Finished,
                        InstallAction::Abort(InstallError::MissingContentLength),
                    ),
                    Some(total) => if total > usize::MAX as u64 {
                        (InstallState::Finished, InstallAction::Abort(InstallError::TooLarge))
                    } else {
                        (
                            InstallState::Receiving { total, received: 0 },
                            InstallAction::ReadChunk { received: 0, total },
                        )
                    },
                },
                _ => out_of_order(),
            },
            InstallEvent::Chunk { len } => match state {
                InstallState::Receiving { total, received } => {
                    let now = add_capped(received, len);
                    (
                        InstallState::Receiving { total, received: now },
                        InstallAction::ReadChunk { received: now, total },
                    )
                },
                _ => out_of_order(),
            },
            InstallEvent::BodyEnded => match state {
                InstallState::Receiving { .. } => (InstallState::Extracting, InstallAction::Extract),
                _ => out_of_order(),
            },
            InstallEvent::Extracted => match state {
                InstallState::Extracting => (
                    InstallState::Checking,
                    InstallAction::CheckDestination,
                ),
                _ => out_of_order(),
            },
            InstallEvent::DestinationChecked { exists } => match state {
                InstallState::Checking => if exists {
                    (InstallState::Finished, InstallAction::Abort(InstallError::DestinationExists))
                } else {
                    (InstallState::Placing, InstallAction::Place)
                },
                _ => out_of_order(),
            },
            InstallEvent::Placed => match state {
                InstallState::Placing => (
                    InstallState::Finished,
                    InstallAction::Done(InstallOutcome::Installed),
                ),
                _ => out_of_order(),
            },
        },
    }
}

/// The end of an installation that received an event out of turn.
fn out_of_order() -> (r: (InstallState, InstallAction))
    ensures
        r == (InstallState::Finished, InstallAction::Abort(InstallError::OutOfOrder)),
{
    (InstallState::Finished, InstallAction::Abort(InstallError::OutOfOrder))
}

/// What becomes of an auxiliary tool's installation when the toolchain
/// command that performs it ends with `code`, or without one.
pub fn command_outcome(code: Option<i32>) -> (r: Result<InstallOutcome, InstallError>)
    ensures
        code == Some(0i32) ==> r == Ok::<InstallOutcome, InstallError>(InstallOutcome::Installed),
        code != Some(0i32) ==> r == Err::<InstallOutcome, InstallError>(
            InstallError::CommandFailed,
        ),
{
    match code {
        Some(c) => if c == 0 {
            Ok(InstallOutcome::Installed)
        } else {
            Err(InstallError::CommandFailed)
        },
        None => Err(InstallError::CommandFailed),
    }
}

/// Once an installation finds the version complete on disk, it asks for
/// nothing that changes the disk or reaches the network, whatever events
/// follow: installing what is installed is a success without effect.
pub proof fn reinstall_touches_nothing(events: Seq<InstallEvent>, i: int)
    requires
        events.len() >= 2,
        events[0] == InstallEvent::Start,
        events[1] == (InstallEvent::Probed { complete: true }),
        0 <= i < events.len(),
    ensures
        actions_of(InstallState::Idle, events).len() == events.len(),
        !reaches_outside(actions_of(InstallState::Idle, events)[i]),
        actions_of(InstallState::Idle, events)[1] == InstallAction::Done(
            InstallOutcome::AlreadyInstalled,
        ),
        i >= 1 ==> state_after(InstallState::Idle, events.take(i + 1)) == InstallState::Finished,
    decreases events.len(),
{
    run_has_one_action_per_event(InstallState::Idle, events);
    let start = InstallState::Idle;
    if events.len() == 2 {
        let e1 = events.drop_last();
        assert(e1.drop_last() =~= Seq::<InstallEvent>::empty());
        assert(e1.last() == InstallEvent::Start);
        assert(state_after(start, e1.drop_last()) == start);
        assert(state_after(start, e1) == InstallState::Probing);
        assert(actions_of(start, e1.drop_last()) =~= Seq::<InstallAction>::empty());
        assert(actions_of(start, e1) =~= seq![InstallAction::ProbeInstalled]);
        assert(events.last() == (InstallEvent::Probed { complete: true }));
        assert(events.take(2) =~= events);
        assert(events.take(1) =~= e1);
    } else {
        let shorter = events.drop_last();
        run_has_one_action_per_event(start, shorter);
        reinstall_touches_nothing(shorter, 1);
        assert(shorter.take(2) =~= events.take(2));
        if i < shorter.len() {
            reinstall_touches_nothing(shorter, i);
            assert(shorter.take(i + 1) =~= events.take(i + 1));
        } else {
            reinstall_touches_nothing(shorter, shorter.len() - 1);
            assert(shorter.take(shorter.len() as int) =~= shorter);
            assert(events.take(i + 1) =~= events);
        }
    }
}

/// A run asks for one action for each event.
pub proof fn run_has_one_action_per_event(start: InstallState, events: Seq<InstallEvent>)
    ensures
        actions_of(start, events).len() == events.len(),
    decreases events.len(),
{
    if events.len() > 0 {
        run_has_one_action_per_event(start, events.drop_last());
    }
}

/// The toolchain is renamed into its final place only in answer to the
/// report that nothing stands there: an installation never overwrites.
pub proof fn place_only_on_free_destination(start: InstallState, events: Seq<InstallEvent>, i: int)
    requires
        0 <= i < events.len(),
        actions_of(start, events).len() == events.len(),
        actions_of(start, events)[i] == InstallAction::Place,
    ensures
        events[i] == (InstallEvent::DestinationChecked { exists: false }),
    decreases events.len(),
{
    run_has_one_action_per_event(start, events.drop_last());
    if i < events.len() - 1 {
        place_only_on_free_destination(start, events.drop_last(), i);
    }
}

/// The action that answers the event at `i` is the step from the state that
/// the events before it lead to.
pub proof fn action_at(start: InstallState, events: Seq<InstallEvent>, i: int)
    requires
        0 <= i < events.len(),
    ensures
        actions_of(start, events).len() == events.len(),
        actions_of(start, events)[i] == install_next(
            state_after(start, events.take(i)),
            events[i],
        ).1,
        state_after(start, events.take(i + 1)) == install_next(
            state_after(start, events.take(i)),
            events[i],
        ).0,
    decreases events.len(),
{
    run_has_one_action_per_event(start, events);
    run_has_one_action_per_event(start, events.drop_last());
    assert(events.take(i + 1).drop_last() =~= events.take(i));
    assert(events.take(i + 1).last() == events[i]);
    if i == events.len() - 1 {
        assert(events.take(i) =~= events.drop_last());
    } else {
        action_at(start, events.drop_last(), i);
        assert(events.drop_last().take(i) =~= events.take(i));
    }
}

/// A version is reported as installed only directly after the toolchain was
/// asked to be put in place: the report follows the renaming, and so the
/// download and the unpacking that lead to it.
pub proof fn installed_only_after_place(events: Seq<InstallEvent>, i: int)
    requires
        0 <= i < events.len(),
        actions_of(InstallState::Idle, events).len() == events.len(),
        actions_of(InstallState::Idle, events)[i] == InstallAction::Done(InstallOutcome::Installed),
    ensures
        i > 0,
        actions_of(InstallState::Idle, events)[i - 1] == InstallAction::Place,
        events[i] == InstallEvent::Placed,
{
    let start = InstallState::Idle;
    action_at(start, events, i);
    if i == 0 {
        assert(events.take(0) =~= Seq::<InstallEvent>::empty());
    } else {
        action_at(start, events, i - 1);
    }
}

/// The archive is asked for only after the look at the disk has found the
/// version incomplete: what is installed is never fetched again.
pub proof fn download_only_when_incomplete(events: Seq<InstallEvent>, i: int)
    requires
        0 <= i < events.len(),
        actions_of(InstallState::Idle, events).len() == events.len(),
        actions_of(InstallState::Idle, events)[i] == InstallAction::OpenDownload,
    ensures
        i > 1,
        events[i - 1] == (InstallEvent::Probed { complete: false }),
        actions_of(InstallState::Idle, events)[i - 1] == InstallAction::CreateInstallDir,
{
    let start = InstallState::Idle;
    action_at(start, events, i);
    if i == 0 {
        assert(events.take(0) =~= Seq::<InstallEvent>::empty());
    } else {
        action_at(start, events, i - 1);
        if i == 1 {
            assert(events.take(0) =~= Seq::<InstallEvent>::empty());
        } else {
            action_at(start, events, i - 2);
        }
    }
}

/// Whether an action ends an installation.
pub open spec fn ends_run(action: InstallAction) -> bool {
    action is Done || action is Abort
}

/// An installation that ends in failure has put nothing in place: up to its
/// end no renaming into the final place was reported done, and it never
/// reported the version as installed. What it leaves on disk holds no
/// toolchain binary, and so is no installed version.
pub proof fn failed_install_places_nothing(events: Seq<InstallEvent>, end: int, at: int)
    requires
        0 <= at <= end < events.len(),
        actions_of(InstallState::Idle, events).len() == events.len(),
        actions_of(InstallState::Idle, events)[end] is Abort,
        forall|k: int| 0 <= k < end ==> !ends_run(#[trigger] actions_of(InstallState::Idle, events)[k]),
    ensures
        !(state_after(InstallState::Idle, events.take(at)) == InstallState::Placing && events[at]
            == InstallEvent::Placed),
        actions_of(InstallState::Idle, events)[at] != InstallAction::Done(InstallOutcome::Installed),
{
    action_at(InstallState::Idle, events, at);
    if at < end {
        assert(!ends_run(actions_of(InstallState::Idle, events)[at]));
    }
}

impl InstallError {
    /// The failure in words; `url` is the address the archive was asked from.
    pub fn message(&self, url: &str) -> (r: String)
        ensures
            *self == InstallError::InvalidFormat ==> r@
                == "Invalid format. Use `golta install go` or `golta install go@<version>`."@,
            *self == InstallError::MissingContentLength ==> r@
                == "Failed to get content length from "@ + url@,
            *self == InstallError::TooLarge ==> r@
                == "File size is too large to fit in memory on this system."@,
            *self == InstallError::DestinationExists ==> r@
                == "The destination already exists; nothing was overwritten."@,
            *self == InstallError::StepFailed ==> r@ == "A step of the installation failed."@,
            *self == InstallError::OutOfOrder ==> r@
                == "The installation received an event out of turn."@,
            *self == InstallError::CommandFailed ==> r@
                == "The toolchain command that installs the tool failed."@,
    {
        match self {
            InstallError::InvalidFormat => String::from_str(
                "Invalid format. Use `golta install go` or `golta install go@<version>`.",
            ),
            InstallError::MissingContentLength => String::from_str(
                "Failed to get content length from ",
            ).concat(url),
            InstallError::TooLarge => String::from_str(
                "File size is too large to fit in memory on this system.",
            ),
            InstallError::DestinationExists => String::from_str(
                "The destination already exists; nothing was overwritten.",
            ),
            InstallError::StepFailed => String::from_str("A step of the installation failed."),
            InstallError::OutOfOrder => String::from_str(
                "The installation received an event out of turn.",
            ),
            InstallError::CommandFailed => String::from_str(
                "The toolchain command that installs the tool failed.",
            ),
        }
    }
}

/// What to tell the user when an installation begins.
pub fn installing_message(version: &str) -> (r: String)
    ensures
        r@ == "Installing Go version "@ + version@,
{
    String::from_str("Installing Go version ").concat(version)
}

/// What to tell the user of an outcome.
pub fn outcome_message(outcome: InstallOutcome, version: &str, install_dir: &str) -> (r: String)
    ensures
        outcome == InstallOutcome::AlreadyInstalled ==> r@ == "Go "@ + version@
            + " is already installed."@,
        outcome == InstallOutcome::Installed ==> r@ == "Go "@ + version@ + " installed to "@
            + install_dir@,
{
    let mut m = String::from_str("Go ");
    m.append(version);
    match outcome {
        InstallOutcome::AlreadyInstalled => {
            m.append(" is already installed.");
        },
        InstallOutcome::Installed => {
            m.append(" installed to ");
            m.append(install_dir);
        },
    }
    m
}

} // verus!
