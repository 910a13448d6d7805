use golta::paths::TreePath;
use golta::pinned_version::{
    decide_level, extract_go_version, find_pinned_go_version_from, probe, FileProbe,
    LevelDecision, PinFileSystem, ResolveError, VersionSource,
};
use std::collections::HashMap;

fn path(text: &str) -> TreePath {
    let (anchor, rest) = match text.strip_prefix('/') {
        Some(rest) => ("/", rest),
        None => ("", text),
    };
    let names = rest
        .split('/')
        .filter(|n| !n.is_empty())
        .map(|n| n.to_string())
        .collect();
    TreePath::new(anchor, names)
}

struct MockFs {
    files: HashMap<TreePath, String>,
}

impl MockFs {
    fn new(files: HashMap<TreePath, String>) -> Self {
        Self { files }
    }
}

impl PinFileSystem for MockFs {
    fn file_exists(&self, path: &TreePath) -> bool {
        self.files.contains_key(path)
    }

    fn read_to_string(&self, path: &TreePath) -> Result<String, String> {
        self.files
            .get(path)
            .cloned()
            .ok_or_else(|| "missing file".to_string())
    }
}

struct LockedFs;

impl PinFileSystem for LockedFs {
    fn file_exists(&self, _path: &TreePath) -> bool {
        true
    }

    fn read_to_string(&self, _path: &TreePath) -> Result<String, String> {
        Err("permission denied".to_string())
    }
}

fn pin(path_text: &str, go: &str) -> (TreePath, String) {
    (path(path_text), format!("{{\"go\":\"{}\"}}", go))
}

#[test]
fn finds_in_current_dir() {
    let start = path("project/sub");
    let pin_path = path("project/sub/.golta.json");
    let fs = MockFs::new(HashMap::from([pin("project/sub/.golta.json", "1.22.0")]));

    let found = find_pinned_go_version_from(&fs, &start).unwrap();

    assert_eq!(
        found,
        Some(("1.22.0".to_string(), pin_path)),
        "should pick current directory pin"
    );
}

#[test]
fn climbs_to_parent_when_missing_locally() {
    let start = path("project/sub");
    let parent_pin = path("project/.golta.json");
    let fs = MockFs::new(HashMap::from([pin("project/.golta.json", "1.21.1")]));

    let found = find_pinned_go_version_from(&fs, &start).unwrap();

    assert_eq!(
        found,
        Some(("1.21.1".to_string(), parent_pin)),
        "should find pin in ancestor"
    );
}

#[test]
fn returns_none_when_no_pin_anywhere() {
    let start = path("project/sub");
    let fs = MockFs::new(HashMap::new());

    let found = find_pinned_go_version_from(&fs, &start).unwrap();

    assert!(found.is_none());
}

#[test]
fn propagates_parse_error_on_invalid_json() {
    let start = path("project");
    let pin_path = path("project/.golta.json");
    let fs = MockFs::new(HashMap::from([(pin_path, "not json".to_string())]));

    let err = find_pinned_go_version_from(&fs, &start).unwrap_err();

    assert!(
        matches!(err, ResolveError::CorruptPin { .. }),
        "expected a parse error, got {:?}",
        err
    );
}

#[test]
fn stops_at_the_first_pin_record_even_without_go_key() {
    let start = path("project/sub");
    let near = path("project/sub/.golta.json");
    let fs = MockFs::new(HashMap::from([
        (near, "{}".to_string()),
        pin("project/.golta.json", "1.20.0"),
    ]));

    let found = find_pinned_go_version_from(&fs, &start).unwrap();

    assert_eq!(found, None, "the nearest pin record is the project boundary");
}

#[test]
fn finds_pin_at_the_root_of_an_absolute_path() {
    let start = path("/home/user/work");
    let fs = MockFs::new(HashMap::from([pin("/.golta.json", "1.19.0")]));

    let found = find_pinned_go_version_from(&fs, &start).unwrap();

    assert_eq!(found, Some(("1.19.0".to_string(), path("/.golta.json"))));
}

#[test]
fn unreadable_pin_record_is_a_failure() {
    let err = find_pinned_go_version_from(&LockedFs, &path("project")).unwrap_err();
    assert_eq!(
        err,
        ResolveError::Unreadable {
            reason: "permission denied".to_string()
        }
    );
}

#[test]
fn extract_reads_the_go_member() {
    assert_eq!(
        extract_go_version("{\"go\": \"1.21.0\"}").unwrap(),
        Some("1.21.0".to_string())
    );
    assert_eq!(
        extract_go_version("{\"node\": \"18\", \"go\": \"1.2.3\"}").unwrap(),
        Some("1.2.3".to_string())
    );
    assert_eq!(extract_go_version("{\"node\": \"18\"}").unwrap(), None);
    assert_eq!(extract_go_version("{\"go\": 121}").unwrap(), None);
    assert_eq!(extract_go_version("[\"go\"]").unwrap(), None);
}

#[test]
fn extract_takes_an_empty_version_as_absent() {
    assert_eq!(extract_go_version("{\"go\": \"\"}").unwrap(), None);
}

#[test]
fn extract_rejects_what_is_no_json() {
    assert!(matches!(
        extract_go_version("go = 1.21"),
        Err(ResolveError::CorruptPin { .. })
    ));
    assert!(matches!(
        extract_go_version(""),
        Err(ResolveError::CorruptPin { .. })
    ));
}

#[test]
fn probe_tells_absent_present_and_unreadable() {
    let fs = MockFs::new(HashMap::from([(path("a/b"), "text".to_string())]));
    assert_eq!(probe(&fs, &path("a/c")), FileProbe::Absent);
    assert_eq!(
        probe(&fs, &path("a/b")),
        FileProbe::Present {
            content: "text".to_string()
        }
    );
    assert_eq!(
        probe(&LockedFs, &path("a/b")),
        FileProbe::Unreadable {
            reason: "permission denied".to_string()
        }
    );
}

fn present(text: &str) -> FileProbe {
    FileProbe::Present {
        content: text.to_string(),
    }
}

#[test]
fn level_pin_decides_before_manifest() {
    let decision = decide_level(&present("{\"go\":\"1.21.0\"}"), &present("go 1.20\n"));
    assert_eq!(
        decision,
        LevelDecision::Hit {
            version: "1.21.0".to_string(),
            source: VersionSource::Pin
        }
    );
}

#[test]
fn level_manifest_decides_without_pin() {
    let decision = decide_level(&FileProbe::Absent, &present("module m\n\ngo 1.20\n"));
    assert_eq!(
        decision,
        LevelDecision::Hit {
            version: "1.20".to_string(),
            source: VersionSource::Manifest
        }
    );
}

#[test]
fn level_pin_for_another_tool_is_a_boundary() {
    assert_eq!(
        decide_level(&present("{\"node\":\"18\"}"), &FileProbe::Absent),
        LevelDecision::Boundary
    );
    assert_eq!(
        decide_level(&present("{\"node\":\"18\"}"), &present("go 1.20\n")),
        LevelDecision::Hit {
            version: "1.20".to_string(),
            source: VersionSource::Manifest
        }
    );
}

#[test]
fn level_without_files_passes() {
    assert_eq!(
        decide_level(&FileProbe::Absent, &FileProbe::Absent),
        LevelDecision::Next
    );
    assert_eq!(
        decide_level(&FileProbe::Absent, &present("module m\n")),
        LevelDecision::Next
    );
}

#[test]
fn level_failures() {
    assert!(matches!(
        decide_level(&present("not json"), &present("go 1.20\n")),
        LevelDecision::Fail(ResolveError::CorruptPin { .. })
    ));
    let unreadable = FileProbe::Unreadable {
        reason: "denied".to_string(),
    };
    assert_eq!(
        decide_level(&unreadable, &FileProbe::Absent),
        LevelDecision::Fail(ResolveError::Unreadable {
            reason: "denied".to_string()
        })
    );
    assert_eq!(
        decide_level(&FileProbe::Absent, &unreadable),
        LevelDecision::Fail(ResolveError::Unreadable {
            reason: "denied".to_string()
        })
    );
}

#[test]
fn resolution_failures_in_words() {
    assert_eq!(
        ResolveError::NotActive.message(),
        "No Go version is set. Use `golta pin go@<version>` in your project, or `golta default go@<version>` globally."
    );
    assert_eq!(
        ResolveError::Unreadable {
            reason: "permission denied".to_string()
        }
        .message(),
        "permission denied"
    );
    assert_eq!(
        ResolveError::CorruptPin {
            reason: "expected value at line 1 column 1".to_string()
        }
        .message(),
        "The pin record is not valid JSON: expected value at line 1 column 1"
    );
}
