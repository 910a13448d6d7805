use std::io::Write;

use golta::install::{
    add_capped, command_outcome, download_url, install_step, installing_message,
    outcome_message, parse_install_spec, zip_entry_action, InstallAction, InstallError,
    InstallEvent, InstallOutcome, InstallState, ZipEntryAction,
};

fn run(events: &[InstallEvent]) -> (InstallState, Vec<InstallAction>) {
    let mut state = InstallState::Idle;
    let mut actions = Vec::new();
    for event in events {
        let (next, action) = install_step(state, *event);
        state = next;
        actions.push(action);
    }
    (state, actions)
}

#[test]
fn install_runs_through_every_step() {
    let (state, actions) = run(&[
        InstallEvent::Start,
        InstallEvent::Probed { complete: false },
        InstallEvent::DirectoryReady,
        InstallEvent::ResponseOpened {
            content_length: Some(10),
        },
        InstallEvent::Chunk { len: 4 },
        InstallEvent::Chunk { len: 6 },
        InstallEvent::BodyEnded,
        InstallEvent::Extracted,
        InstallEvent::DestinationChecked { exists: false },
        InstallEvent::Placed,
    ]);
    assert_eq!(state, InstallState::Finished);
    assert_eq!(
        actions,
        vec![
            InstallAction::ProbeInstalled,
            InstallAction::CreateInstallDir,
            InstallAction::OpenDownload,
            InstallAction::ReadChunk {
                received: 0,
                total: 10
            },
            InstallAction::ReadChunk {
                received: 4,
                total: 10
            },
            InstallAction::ReadChunk {
                received: 10,
                total: 10
            },
            InstallAction::Extract,
            InstallAction::CheckDestination,
            InstallAction::Place,
            InstallAction::Done(InstallOutcome::Installed),
        ]
    );
}

#[test]
fn installing_twice_fetches_once() {
    let (_, first) = run(&[
        InstallEvent::Start,
        InstallEvent::Probed { complete: false },
        InstallEvent::DirectoryReady,
        InstallEvent::ResponseOpened {
            content_length: Some(1),
        },
        InstallEvent::Chunk { len: 1 },
        InstallEvent::BodyEnded,
        InstallEvent::Extracted,
        InstallEvent::DestinationChecked { exists: false },
        InstallEvent::Placed,
    ]);
    assert_eq!(
        first.iter().filter(|a| **a == InstallAction::OpenDownload).count(),
        1
    );
    let (state, second) = run(&[InstallEvent::Start, InstallEvent::Probed { complete: true }]);
    assert_eq!(state, InstallState::Finished);
    assert_eq!(
        second,
        vec![
            InstallAction::ProbeInstalled,
            InstallAction::Done(InstallOutcome::AlreadyInstalled)
        ]
    );
}

#[test]
fn missing_content_length_is_an_error() {
    let (state, actions) = run(&[
        InstallEvent::Start,
        InstallEvent::Probed { complete: false },
        InstallEvent::DirectoryReady,
        InstallEvent::ResponseOpened {
            content_length: None,
        },
    ]);
    assert_eq!(state, InstallState::Finished);
    assert_eq!(
        actions[3],
        InstallAction::Abort(InstallError::MissingContentLength)
    );
}

#[test]
fn existing_destination_is_not_overwritten() {
    let (state, actions) = run(&[
        InstallEvent::Start,
        InstallEvent::Probed { complete: false },
        InstallEvent::DirectoryReady,
        InstallEvent::ResponseOpened {
            content_length: Some(0),
        },
        InstallEvent::BodyEnded,
        InstallEvent::Extracted,
        InstallEvent::DestinationChecked { exists: true },
    ]);
    assert_eq!(state, InstallState::Finished);
    assert_eq!(
        actions[6],
        InstallAction::Abort(InstallError::DestinationExists)
    );
    assert!(!actions.contains(&InstallAction::Place));
}

#[test]
fn failed_step_and_event_out_of_turn_end_the_installation() {
    assert_eq!(
        install_step(InstallState::Extracting, InstallEvent::Failed),
        (
            InstallState::Finished,
            InstallAction::Abort(InstallError::StepFailed)
        )
    );
    assert_eq!(
        install_step(InstallState::Idle, InstallEvent::Placed),
        (
            InstallState::Finished,
            InstallAction::Abort(InstallError::OutOfOrder)
        )
    );
    assert_eq!(
        install_step(InstallState::Finished, InstallEvent::Start),
        (
            InstallState::Finished,
            InstallAction::Abort(InstallError::OutOfOrder)
        )
    );
    assert_eq!(
        install_step(InstallState::Finished, InstallEvent::Failed),
        (
            InstallState::Finished,
            InstallAction::Abort(InstallError::OutOfOrder)
        )
    );
}

#[test]
fn byte_counts_are_capped() {
    assert_eq!(add_capped(1, 2), 3);
    assert_eq!(add_capped(u64::MAX, 1), u64::MAX);
    assert_eq!(add_capped(u64::MAX - 1, 1), u64::MAX);
    assert_eq!(
        install_step(
            InstallState::Receiving {
                total: 5,
                received: u64::MAX
            },
            InstallEvent::Chunk { len: 7 }
        ),
        (
            InstallState::Receiving {
                total: 5,
                received: u64::MAX
            },
            InstallAction::ReadChunk {
                received: u64::MAX,
                total: 5
            }
        )
    );
}

#[test]
fn install_spec_forms() {
    assert_eq!(parse_install_spec("go@1.21.0", None), Ok("1.21.0".to_string()));
    assert_eq!(parse_install_spec("go@latest", None), Ok("latest".to_string()));
    assert_eq!(parse_install_spec("go", None), Ok("latest".to_string()));
    assert_eq!(parse_install_spec("go", Some("1.21.4")), Ok("1.21.4".to_string()));
    assert_eq!(parse_install_spec("go", Some("")), Ok("latest".to_string()));
    assert_eq!(
        parse_install_spec("go@1.21.0", Some("1.19")),
        Ok("1.21.0".to_string())
    );
    assert_eq!(
        parse_install_spec("node@18", None),
        Err(InstallError::InvalidFormat)
    );
    assert_eq!(parse_install_spec("", None), Err(InstallError::InvalidFormat));
}

#[test]
fn download_address() {
    assert_eq!(
        download_url("1.22.0", "linux-amd64", "tar.gz"),
        "https://golang.org/dl/go1.22.0.linux-amd64.tar.gz"
    );
    assert_eq!(
        download_url("1.21.5", "windows-arm64", "zip"),
        "https://golang.org/dl/go1.21.5.windows-arm64.zip"
    );
}

#[test]
fn zip_entries() {
    assert_eq!(zip_entry_action("", false), ZipEntryAction::Skip);
    assert_eq!(zip_entry_action("", true), ZipEntryAction::Skip);
    assert_eq!(zip_entry_action("go/bin/", true), ZipEntryAction::MakeDirectory);
    assert_eq!(zip_entry_action("go/bin/go.exe", false), ZipEntryAction::WriteFile);
}

#[test]
fn auxiliary_tool_needs_exit_code_zero() {
    assert_eq!(command_outcome(Some(0)), Ok(InstallOutcome::Installed));
    assert_eq!(command_outcome(Some(2)), Err(InstallError::CommandFailed));
    assert_eq!(command_outcome(None), Err(InstallError::CommandFailed));
}

#[test]
fn install_messages() {
    assert_eq!(installing_message("1.22.0"), "Installing Go version 1.22.0");
    assert_eq!(
        outcome_message(InstallOutcome::AlreadyInstalled, "1.22.0", "/h/.golta/versions/1.22.0"),
        "Go 1.22.0 is already installed."
    );
    assert_eq!(
        outcome_message(InstallOutcome::Installed, "1.22.0", "/h/.golta/versions/1.22.0"),
        "Go 1.22.0 installed to /h/.golta/versions/1.22.0"
    );
    assert_eq!(
        InstallError::InvalidFormat.message("u"),
        "Invalid format. Use `golta install go` or `golta install go@<version>`."
    );
    assert_eq!(
        InstallError::MissingContentLength.message("https://x/y"),
        "Failed to get content length from https://x/y"
    );
    assert_eq!(
        InstallError::TooLarge.message("u"),
        "File size is too large to fit in memory on this system."
    );
}

fn archive_bytes(entries: &[(&str, Option<&[u8]>)]) -> Vec<u8> {
    let mut writer = zip::ZipWriter::new(std::io::Cursor::new(Vec::new()));
    let options = zip::write::SimpleFileOptions::default()
        .compression_method(zip::CompressionMethod::Stored);
    for (name, content) in entries {
        match content {
            Some(bytes) => {
                writer.start_file(*name, options).unwrap();
                writer.write_all(bytes).unwrap();
            }
            None => writer.add_directory(*name, options).unwrap(),
        }
    }
    writer.finish().unwrap().into_inner()
}

fn archive_of(entries: &[(&str, Option<&[u8]>)]) -> zip::ZipArchive<std::io::Cursor<Vec<u8>>> {
    zip::ZipArchive::new(std::io::Cursor::new(archive_bytes(entries))).unwrap()
}

/// Marks the entry at `index` as encrypted in the archive's directory, so
/// that it cannot be opened without a password.
fn lock_entry(bytes: &mut [u8], index: usize) {
    let mut seen = 0;
    let mut at = 0;
    while at + 4 <= bytes.len() {
        if bytes[at..at + 4] == [b'P', b'K', 1, 2] {
            if seen == index {
                bytes[at + 8] |= 1;
                return;
            }
            seen += 1;
        }
        at += 1;
    }
    panic!("the archive has no entry {}", index);
}

#[test]
fn zip_plan_follows_the_archive() {
    let mut archive = archive_of(&[
        ("go/", None),
        ("go/bin/", None),
        ("go/bin/go.exe", Some(b"binary")),
        ("go/VERSION", Some(b"go1.22.0")),
    ]);
    let steps = golta::install::plan_zip_extraction(&mut archive).unwrap();
    let seen: Vec<(usize, &str, ZipEntryAction)> = steps
        .iter()
        .map(|s| (s.index, s.name.as_str(), s.action))
        .collect();
    assert_eq!(
        seen,
        vec![
            (0, "go/", ZipEntryAction::MakeDirectory),
            (1, "go/bin/", ZipEntryAction::MakeDirectory),
            (2, "go/bin/go.exe", ZipEntryAction::WriteFile),
            (3, "go/VERSION", ZipEntryAction::WriteFile),
        ]
    );
    assert_eq!(archive.len(), 4);
    let mut again = archive_of(&[]);
    assert_eq!(golta::install::plan_zip_extraction(&mut again), Ok(vec![]));
}

#[test]
fn zip_plan_fails_at_the_first_entry_that_does_not_open() {
    let mut bytes = archive_bytes(&[
        ("go/", None),
        ("go/VERSION", Some(b"go1.22.0")),
        ("go/bin/go.exe", Some(b"binary")),
        ("go/LICENSE", Some(b"text")),
    ]);
    lock_entry(&mut bytes, 2);
    lock_entry(&mut bytes, 3);
    let mut archive = zip::ZipArchive::new(std::io::Cursor::new(bytes)).unwrap();
    match golta::install::plan_zip_extraction(&mut archive) {
        Err(golta::install::ExtractError::Unreadable { index, reason }) => {
            assert_eq!(index, 2);
            assert!(!reason.is_empty());
        }
        other => panic!("unexpected outcome: {:?}", other),
    }
    assert_eq!(archive.len(), 4);
}
