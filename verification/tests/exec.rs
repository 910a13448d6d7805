use golta::exec::{
    dispatch_mode, exec_go, exec_version, exit_code, missing_version_action, prompt_accepts,
    root_directory, root_of_binary, root_variable, DispatchMode, ExecError, GoCommandRunner, GoEnvironment,
    MissingVersionAction,
};
use golta::paths::TreePath;
use std::cell::RefCell;

fn path(text: &str) -> TreePath {
    let (anchor, rest) = match text.strip_prefix('/') {
        Some(rest) => ("/", rest),
        None => ("", text),
    };
    let names = rest
        .split('/')
        .filter(|n| !n.is_empty())
        .map(|n| n.to_string())
        .collect();
    TreePath::new(anchor, names)
}

struct MockEnv {
    active_version: Option<String>,
    go_path: TreePath,
    requested_version: RefCell<Option<String>>,
}

impl MockEnv {
    fn new(active_version: Option<&str>, go_path: &str) -> Self {
        Self {
            active_version: active_version.map(ToString::to_string),
            go_path: path(go_path),
            requested_version: RefCell::new(None),
        }
    }
}

impl GoEnvironment for MockEnv {
    fn active_version(&self) -> Result<Option<String>, String> {
        Ok(self.active_version.clone())
    }

    fn go_binary_path(&self, version: &str) -> Result<TreePath, String> {
        self.requested_version.replace(Some(version.to_string()));
        Ok(self.go_path.clone())
    }
}

struct MockRunner {
    last_path: Option<TreePath>,
    last_args: Vec<String>,
    exit_code: i32,
}

impl MockRunner {
    fn new(exit_code: i32) -> Self {
        Self {
            last_path: None,
            last_args: Vec::new(),
            exit_code,
        }
    }
}

impl GoCommandRunner for MockRunner {
    fn run(&mut self, go_path: &TreePath, args: &Vec<String>) -> Result<i32, String> {
        self.last_path = Some(go_path.clone());
        self.last_args = args.to_vec();
        Ok(self.exit_code)
    }
}

#[test]
fn errors_when_tool_is_not_go() {
    let env = MockEnv::new(Some("go@1.22.1"), "/tmp/go/bin/go");
    let mut runner = MockRunner::new(0);

    let result = exec_go("python", &vec![], &env, &mut runner);

    assert!(result.is_err());
}

#[test]
fn errors_when_no_active_version() {
    let env = MockEnv::new(None, "/tmp/go/bin/go");
    let mut runner = MockRunner::new(0);

    let result = exec_go("go", &vec![], &env, &mut runner);

    assert!(result.is_err());
}

#[test]
fn passes_clean_version_and_runs_command() {
    let env = MockEnv::new(Some("go@1.22.1"), "/tmp/go/bin/go");
    let mut runner = MockRunner::new(42);
    let args = vec!["fmt".to_string(), "./...".to_string()];

    let code = exec_go("go", &args, &env, &mut runner).unwrap();

    assert_eq!(code, 42);
    assert_eq!(env.requested_version.borrow().as_deref(), Some("1.22.1"));
    assert_eq!(runner.last_path.unwrap(), path("/tmp/go/bin/go"));
    assert_eq!(runner.last_args, args);
}

#[test]
fn nothing_runs_without_a_version() {
    let env = MockEnv::new(Some("  go@ \n"), "/tmp/go/bin/go");
    let mut runner = MockRunner::new(0);
    assert_eq!(
        exec_go("go", &vec![], &env, &mut runner),
        Err(ExecError::NotActive)
    );
    assert_eq!(runner.last_path, None);
    assert_eq!(
        exec_go("python", &vec![], &env, &mut runner),
        Err(ExecError::UnsupportedTool)
    );
    assert_eq!(*env.requested_version.borrow(), None);
}

#[test]
fn version_is_cleaned() {
    assert_eq!(exec_version("go", Some(" go@1.22.1\n")), Ok("1.22.1"));
    assert_eq!(exec_version("go", Some("1.22.1")), Ok("1.22.1"));
    assert_eq!(exec_version("go", Some("go@go@1.22.1")), Ok("1.22.1"));
    assert_eq!(exec_version("go", Some("")), Err(ExecError::NotActive));
    assert_eq!(exec_version("go", None), Err(ExecError::NotActive));
    assert_eq!(
        exec_version("gofmt", Some("1.22.1")),
        Err(ExecError::UnsupportedTool)
    );
}

#[test]
fn exit_code_defaults_to_one() {
    assert_eq!(exit_code(Some(0)), 0);
    assert_eq!(exit_code(Some(42)), 42);
    assert_eq!(exit_code(Some(-3)), -3);
    assert_eq!(exit_code(None), 1);
}

#[test]
fn missing_version_in_ci_fails_fast() {
    assert_eq!(missing_version_action(true, false), MissingVersionAction::Fail);
    assert_eq!(missing_version_action(true, true), MissingVersionAction::Fail);
    assert_eq!(missing_version_action(false, true), MissingVersionAction::Install);
    assert_eq!(missing_version_action(false, false), MissingVersionAction::Prompt);
}

#[test]
fn empty_answer_means_yes() {
    assert!(prompt_accepts(""));
    assert!(prompt_accepts("\n"));
    assert!(prompt_accepts("  \r\n"));
    assert!(prompt_accepts("y\n"));
    assert!(prompt_accepts("Y"));
    assert!(prompt_accepts("yes\n"));
    assert!(prompt_accepts(" YES "));
    assert!(!prompt_accepts("n\n"));
    assert!(!prompt_accepts("no"));
    assert!(!prompt_accepts("yes please"));
}

#[test]
fn dispatch_replaces_where_it_can() {
    assert_eq!(dispatch_mode(true), DispatchMode::Replace);
    assert_eq!(dispatch_mode(false), DispatchMode::SpawnAndWait);
}

#[test]
fn root_points_at_the_resolved_version() {
    assert_eq!(root_variable(), "GOROOT");
    assert_eq!(
        root_directory(&path("/home/u"), "1.22.1").render("/"),
        "/home/u/.golta/versions/1.22.1/go"
    );
}

#[test]
fn binary_belongs_to_the_root_of_its_version() {
    let home = path("/home/u");
    let binary = golta::paths::go_binary(&home, "1.22.1", false);
    assert_eq!(binary.render("/"), "/home/u/.golta/versions/1.22.1/go/bin/go");
    assert_eq!(root_of_binary(&binary), Some(root_directory(&home, "1.22.1")));
    assert_eq!(root_of_binary(&path("go")), None);
    assert_eq!(root_of_binary(&path("/")), None);
    assert_eq!(root_of_binary(&path("bin/go")), Some(path("")));
}

#[test]
fn exec_messages() {
    assert_eq!(
        ExecError::UnsupportedTool.message(),
        "Only `go` is supported for exec currently."
    );
    assert_eq!(
        ExecError::NotActive.message(),
        "No Go version is active. Use `golta pin` or `golta default`."
    );
    assert_eq!(
        ExecError::NotInstalled {
            version: "1.22.1".to_string()
        }
        .message(),
        "Go 1.22.1 is not installed. Run `golta install go@1.22.1` first."
    );
}

struct BrokenEnv {
    fail_version: bool,
}

impl GoEnvironment for BrokenEnv {
    fn active_version(&self) -> Result<Option<String>, String> {
        if self.fail_version {
            Err("corrupt pin".to_string())
        } else {
            Ok(Some("1.22.1".to_string()))
        }
    }

    fn go_binary_path(&self, _version: &str) -> Result<TreePath, String> {
        Err("Could not find home directory".to_string())
    }
}

struct BrokenRunner;

impl GoCommandRunner for BrokenRunner {
    fn run(&mut self, _go_path: &TreePath, _args: &Vec<String>) -> Result<i32, String> {
        Err("No such file or directory".to_string())
    }
}

#[test]
fn outside_failures_are_handed_on() {
    let mut runner = MockRunner::new(0);
    assert_eq!(
        exec_go("go", &vec![], &BrokenEnv { fail_version: true }, &mut runner),
        Err(ExecError::Context {
            reason: "corrupt pin".to_string()
        })
    );
    assert_eq!(
        exec_go("go", &vec![], &BrokenEnv { fail_version: false }, &mut runner),
        Err(ExecError::Context {
            reason: "Could not find home directory".to_string()
        })
    );
    assert_eq!(runner.last_path, None);
    let env = MockEnv::new(Some("1.22.1"), "/tmp/go/bin/go");
    let err = exec_go("go", &vec![], &env, &mut BrokenRunner).unwrap_err();
    assert_eq!(err.message(), "No such file or directory");
}
