use golta::manifest::manifest_version;
use golta::paths::{
    cache_file, default_file, go_binary, go_executable_name, manifest_file, pin_file,
    placed_root, staged_root, staging_dir, tool_default_file, tool_version_dir, TreePath,
};
use golta::run::{run_go, RunError};
use golta::text::{
    char_is_whitespace, chars_of, count_char, same_text, starts_with, strip_leading, trim,
};
use golta::which::{which_go, WhichError};

#[test]
fn trim_agrees_with_the_standard_library() {
    let samples = [
        "",
        " ",
        "a",
        "  a b  ",
        "\t\n 1.21.0 \r\n",
        "\u{a0}x\u{2003}",
        "\u{3000}\u{1680}y\u{85}",
        "\u{200b}z\u{200b}",
        "\u{feff}w",
        "x\u{2028}\u{2029}\u{202f}\u{205f}",
    ];
    for s in samples {
        assert_eq!(trim(s), s.trim(), "for {:?}", s);
    }
}

#[test]
fn whitespace_is_the_unicode_property() {
    let mut code: u32 = 0;
    while code <= 0x3100 {
        if let Some(c) = char::from_u32(code) {
            assert_eq!(char_is_whitespace(c), c.is_whitespace(), "for U+{:04X}", code);
        }
        code += 1;
    }
}

#[test]
fn strip_leading_agrees_with_the_standard_library() {
    let samples = ["", "go", "go@", "go@1.2", "go@go@1.2", "ggo@1", "1.2go@", "go@@"];
    for s in samples {
        assert_eq!(strip_leading(s, "go@"), s.trim_start_matches("go@"), "for {:?}", s);
        assert_eq!(strip_leading(s, "go"), s.trim_start_matches("go"), "for {:?}", s);
        assert_eq!(starts_with(s, "go@"), s.starts_with("go@"), "for {:?}", s);
    }
}

#[test]
fn text_helpers() {
    assert_eq!(chars_of("a\u{e9}b"), vec!['a', '\u{e9}', 'b']);
    assert!(same_text("1.21", "1.21"));
    assert!(!same_text("1.21", "1.2"));
    assert!(!same_text("1.21", "1.22"));
    assert!(starts_with("abc", ""));
    assert!(!starts_with("ab", "abc"));
    assert_eq!(count_char("1.21.0", '.'), 2);
    assert_eq!(count_char("1", '.'), 0);
    assert_eq!(count_char("...", '.'), 3);
}

#[test]
fn manifest_prefers_the_toolchain_directive() {
    assert_eq!(
        manifest_version("module m\n\ngo 1.21\n\ntoolchain go1.21.4\n"),
        Some("1.21.4".to_string())
    );
    assert_eq!(
        manifest_version("toolchain go1.22.0\ngo 1.21\n"),
        Some("1.22.0".to_string())
    );
    assert_eq!(manifest_version("module m\n\ngo 1.21\n"), Some("1.21".to_string()));
}

#[test]
fn manifest_reads_the_first_directive_of_its_kind() {
    assert_eq!(manifest_version("go 1.20\ngo 1.21\n"), Some("1.20".to_string()));
    assert_eq!(
        manifest_version("  \tgo   1.20.3  // pinned\r\n"),
        Some("1.20.3".to_string())
    );
    assert_eq!(manifest_version("go 1.19"), Some("1.19".to_string()));
}

#[test]
fn manifest_without_a_version_asks_for_none() {
    assert_eq!(manifest_version(""), None);
    assert_eq!(manifest_version("module m\n"), None);
    assert_eq!(manifest_version("go\n"), None);
    assert_eq!(manifest_version("go \n"), None);
    assert_eq!(manifest_version("// go 1.21\n"), None);
    assert_eq!(manifest_version("golang 1.21\n"), None);
    assert_eq!(manifest_version("require go 1.21\n"), None);
}

#[test]
fn blank_toolchain_value_falls_back_to_the_go_directive() {
    assert_eq!(manifest_version("toolchain go\ngo 1.21\n"), Some("1.21".to_string()));
    assert_eq!(manifest_version("toolchain\ngo 1.21\n"), Some("1.21".to_string()));
    assert_eq!(manifest_version("toolchain go\n"), None);
}

fn home() -> TreePath {
    TreePath::new("/", vec!["home".to_string(), "u".to_string()])
}

#[test]
fn layout_below_home() {
    assert_eq!(default_file(&home()).render("/"), "/home/u/.golta/state/default.txt");
    assert_eq!(
        tool_default_file(&home(), "gopls").render("/"),
        "/home/u/.golta/state/gopls.default"
    );
    assert_eq!(
        cache_file(&home()).render("/"),
        "/home/u/.golta/cache/remote_versions.json"
    );
    assert_eq!(
        tool_version_dir(&home(), "gopls", "0.15.0").render("/"),
        "/home/u/.golta/versions/gopls/0.15.0"
    );
    assert_eq!(
        go_binary(&home(), "1.22.0", false).render("/"),
        "/home/u/.golta/versions/1.22.0/go/bin/go"
    );
    assert_eq!(
        go_binary(&home(), "1.22.0", true).render("\\"),
        "/home\\u\\.golta\\versions\\1.22.0\\go\\bin\\go.exe"
    );
    assert_eq!(go_executable_name(true), "go.exe");
    assert_eq!(go_executable_name(false), "go");
    let project = TreePath::new("", vec!["project".to_string()]);
    assert_eq!(pin_file(&project).render("/"), "project/.golta.json");
    assert_eq!(manifest_file(&project).render("/"), "project/go.mod");
    let install = home().join("v");
    assert_eq!(staging_dir(&install).render("/"), "/home/u/v/go_temp");
    assert_eq!(staged_root(&install).render("/"), "/home/u/v/go_temp/go");
    assert_eq!(placed_root(&install).render("/"), "/home/u/v/go");
}

#[test]
fn paths_pop_up_to_the_anchor() {
    let mut p = TreePath::new("/", vec!["a".to_string(), "b".to_string()]);
    assert_eq!(p.depth(), 2);
    assert_eq!(p.file_name(), Some("b"));
    assert!(p.pop());
    assert_eq!(p.render("/"), "/a");
    assert!(p.pop());
    assert_eq!(p.render("/"), "/");
    assert!(!p.pop());
    assert_eq!(p.render("/"), "/");
    assert_eq!(p.file_name(), None);
    assert_eq!(TreePath::empty().render("/"), "");
    assert_eq!(TreePath::empty().join("x").join("y").render("/"), "x/y");
    let q = TreePath::new("", vec!["a".to_string()]);
    assert_eq!(q.clone(), q);
}

#[test]
fn run_names_the_binary_of_the_version_asked_for() {
    assert_eq!(
        run_go("go@1.21.0", &home(), false).map(|p| p.render("/")),
        Ok("/home/u/.golta/versions/1.21.0/go/bin/go".to_string())
    );
    assert_eq!(run_go("go", &home(), false), Err(RunError::UnsupportedTool));
    assert_eq!(
        RunError::UnsupportedTool.message(),
        "Only Go run is supported currently. Use format 'go@<version>'."
    );
}

#[test]
fn which_names_the_binary_of_the_active_version() {
    assert_eq!(
        which_go("go", Some("go@1.22.0"), &home(), false).map(|p| p.render("/")),
        Ok("/home/u/.golta/versions/1.22.0/go/bin/go".to_string())
    );
    assert_eq!(
        which_go("go", Some("1.22.0"), &home(), true).map(|p| p.render("/")),
        Ok("/home/u/.golta/versions/1.22.0/go/bin/go.exe".to_string())
    );
    assert_eq!(which_go("go", Some(""), &home(), false), Err(WhichError::NotActive));
    assert_eq!(which_go("go", None, &home(), false), Err(WhichError::NotActive));
    assert_eq!(
        which_go("gofmt", Some("1.22.0"), &home(), false),
        Err(WhichError::UnsupportedTool)
    );
    assert_eq!(
        WhichError::NotActive.message(),
        "No Go version is active. Use `golta pin` or `golta default`."
    );
    assert_eq!(
        WhichError::UnsupportedTool.message(),
        "Only `go` is supported for which currently."
    );
}
