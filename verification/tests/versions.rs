use golta::versions::{
    bare_of, catalog_offers, catalog_url, find_latest_stable, highest_candidate, match_version,
    resolve_go_version, same_version, select_version, GoVersionInfo, MatchError, SemVer,
};

fn release(version: &str, stable: bool) -> GoVersionInfo {
    GoVersionInfo {
        version: version.to_string(),
        stable,
    }
}

fn catalog() -> Vec<GoVersionInfo> {
    vec![
        release("go1.23rc1", false),
        release("go1.22.3", true),
        release("go1.22.0", true),
        release("go1.21.9", true),
        release("go1.21.10", true),
        release("go1.20.1", true),
        release("go1.20", true),
    ]
}

#[test]
fn latest_is_the_first_stable_release() {
    let catalog = vec![release("1.21.9", false), release("1.22.3", true)];
    assert_eq!(match_version("latest", &catalog), Ok("1.22.3".to_string()));
    assert_eq!(resolve_go_version("latest", &catalog), Ok("1.22.3".to_string()));
}

#[test]
fn exact_version_is_found() {
    assert_eq!(match_version("1.20.1", &catalog()), Ok("1.20.1".to_string()));
    assert_eq!(
        resolve_go_version("1.20.1", &catalog()),
        Ok("1.20.1".to_string())
    );
}

#[test]
fn missing_version_is_not_found() {
    assert_eq!(
        match_version("1.99.0", &catalog()),
        Err(MatchError::VersionNotFound {
            spec: "1.99.0".to_string()
        })
    );
    assert_eq!(
        resolve_go_version("1.99.0", &catalog()),
        Err(MatchError::VersionNotFound {
            spec: "1.99.0".to_string()
        })
    );
}

#[test]
fn latest_strips_the_toolchain_name() {
    assert_eq!(match_version("latest", &catalog()), Ok("1.22.3".to_string()));
    assert_eq!(find_latest_stable(&catalog()), Some("1.22.3".to_string()));
}

#[test]
fn latest_without_stable_release_fails() {
    let only_rc = vec![release("go1.23rc1", false), release("go1.23rc2", false)];
    assert_eq!(match_version("latest", &only_rc), Err(MatchError::NoStableVersion));
    assert_eq!(
        resolve_go_version("latest", &only_rc),
        Err(MatchError::NoStableVersion)
    );
    assert_eq!(match_version("latest", &vec![]), Err(MatchError::NoStableVersion));
    assert_eq!(find_latest_stable(&vec![]), None);
}

#[test]
fn exact_match_is_by_text() {
    assert_eq!(match_version("1.20", &catalog()), Ok("1.20".to_string()));
    assert_eq!(match_version("1.23rc1", &catalog()), Ok("1.23rc1".to_string()));
    assert!(catalog_offers(&catalog(), "1.22.0"));
    assert!(!catalog_offers(&catalog(), "go1.22.0"));
    assert!(!catalog_offers(&catalog(), "1.22"));
}

#[test]
fn partial_version_takes_the_highest_patch() {
    assert_eq!(resolve_go_version("1.21", &catalog()), Ok("1.21.10".to_string()));
    assert_eq!(resolve_go_version("1.22", &catalog()), Ok("1.22.3".to_string()));
    assert_eq!(resolve_go_version("1", &catalog()), Ok("1.22.3".to_string()));
}

#[test]
fn partial_version_without_release_fails() {
    assert_eq!(
        resolve_go_version("1.19", &catalog()),
        Err(MatchError::NoMatchingVersion {
            spec: "1.19".to_string()
        })
    );
    assert_eq!(
        resolve_go_version("1.20", &vec![]),
        Err(MatchError::NoMatchingVersion {
            spec: "1.20".to_string()
        })
    );
}

#[test]
fn full_version_must_be_a_semantic_version() {
    assert!(matches!(
        resolve_go_version("1.x.y", &catalog()),
        Err(MatchError::InvalidVersion { .. })
    ));
    assert!(matches!(
        resolve_go_version("1.02.3", &catalog()),
        Err(MatchError::InvalidVersion { .. })
    ));
}

#[test]
fn partial_version_must_make_a_requirement() {
    assert!(matches!(
        resolve_go_version("abc", &catalog()),
        Err(MatchError::InvalidRequirement { .. })
    ));
    assert!(matches!(
        resolve_go_version("abc", &vec![]),
        Err(MatchError::InvalidRequirement { .. })
    ));
}

#[test]
fn highest_candidate_ignores_what_is_no_semantic_version() {
    let catalog = vec![
        release("go1.21", true),
        release("go1.21rc2", false),
        release("go1.21.3", true),
        release("go1.21.12", true),
        release("go1.21.4", true),
    ];
    assert_eq!(highest_candidate(&catalog, "~1.21"), Some("1.21.12".to_string()));
    assert_eq!(highest_candidate(&catalog, "~1.22"), None);
}

#[test]
fn bare_version_drops_every_leading_name() {
    assert_eq!(bare_of("go1.22.0"), "1.22.0");
    assert_eq!(bare_of("gogo1.22.0"), "1.22.0");
    assert_eq!(bare_of("1.22.0"), "1.22.0");
    assert_eq!(bare_of("go"), "");
    assert_eq!(bare_of("gogo1.22.0"), "gogo1.22.0".trim_start_matches("go"));
}

#[test]
fn same_version_compares_all_fields() {
    let a = SemVer {
        major: 1,
        minor: 2,
        patch: 3,
        pre: "rc1".to_string(),
        build: String::new(),
        text: "1.2.3-rc1".to_string(),
    };
    let mut b = a.clone();
    assert!(same_version(&a, &b));
    b.pre = "rc2".to_string();
    assert!(!same_version(&a, &b));
    b = a.clone();
    b.patch = 4;
    assert!(!same_version(&a, &b));
    b = a.clone();
    b.build = "x".to_string();
    assert!(!same_version(&a, &b));
}

#[test]
fn catalog_address() {
    assert_eq!(catalog_url(), "https://go.dev/dl/?mode=json&include=all");
}

#[test]
fn invalid_requests_say_why() {
    match resolve_go_version("1.x.y", &catalog()) {
        Err(MatchError::InvalidVersion { spec, reason }) => {
            assert_eq!(spec, "1.x.y");
            assert!(reason.contains("unexpected character"), "reason: {}", reason);
        }
        other => panic!("unexpected outcome: {:?}", other),
    }
    match resolve_go_version("latest!", &catalog()) {
        Err(MatchError::InvalidRequirement { spec, reason }) => {
            assert_eq!(spec, "latest!");
            assert!(!reason.is_empty());
        }
        other => panic!("unexpected outcome: {:?}", other),
    }
}

#[test]
fn match_failures_in_words() {
    assert_eq!(
        MatchError::NoStableVersion.message(),
        "Could not find a stable Go version."
    );
    assert_eq!(
        MatchError::VersionNotFound {
            spec: "1.99.0".to_string()
        }
        .message(),
        "Go version 1.99.0 not found."
    );
    assert_eq!(
        MatchError::NoMatchingVersion {
            spec: "1.19".to_string()
        }
        .message(),
        "No matching Go version found for spec '1.19'"
    );
    assert_eq!(
        MatchError::InvalidVersion {
            spec: "1.x.y".to_string(),
            reason: "unexpected character".to_string()
        }
        .message(),
        "unexpected character"
    );
}

fn each_text(alphabet: &[char], max_len: usize, mut visit: impl FnMut(&str)) {
    let mut indices: Vec<usize> = Vec::new();
    loop {
        let text: String = indices.iter().map(|i| alphabet[*i]).collect();
        visit(&text);
        let mut at = indices.len();
        loop {
            if at == 0 {
                if indices.len() == max_len {
                    return;
                }
                indices = vec![0; indices.len() + 1];
                break;
            }
            at -= 1;
            if indices[at] + 1 < alphabet.len() {
                indices[at] += 1;
                break;
            }
            indices[at] = 0;
        }
    }
}

#[test]
fn a_full_version_that_is_offered_resolves_to_itself() {
    let mut valid = 0;
    each_text(&['0', '1', '9', '.', '-', '+', 'a'], 7, |text| {
        if text.matches('.').count() != 2 {
            return;
        }
        let catalog = vec![release(text, true)];
        match resolve_go_version(text, &catalog) {
            Ok(found) => {
                valid += 1;
                assert_eq!(found, text);
                assert!(semver::Version::parse(text).is_ok(), "for {:?}", text);
            }
            Err(MatchError::InvalidVersion { .. }) => {
                assert!(semver::Version::parse(text).is_err(), "for {:?}", text);
            }
            Err(other) => panic!("for {:?}: {:?}", text, other),
        }
    });
    assert!(valid > 100);
}

#[test]
fn the_highest_candidate_is_after_no_other() {
    let versions = [
        "1.0.0", "1.0.1", "1.0.10", "1.0.2", "1.0.0-rc1", "1.0.0-rc.2", "1.0.0-alpha",
        "1.0.3+b1", "1.0.3+b2", "1.0.3", "1.0.0-1", "1.0.0-a.1", "1.0.0-a",
    ];
    for skip in 0..versions.len() {
        let catalog: Vec<GoVersionInfo> = versions
            .iter()
            .enumerate()
            .filter(|(i, _)| *i != skip)
            .map(|(_, v)| release(v, true))
            .collect();
        for req in ["~1.0", "~1.0.0-a", ">=1.0.0-0, <1.0.1", "~1.0.3"] {
            let parsed = semver::VersionReq::parse(req).unwrap();
            let expected = catalog
                .iter()
                .map(|r| semver::Version::parse(&r.version).unwrap())
                .filter(|v| parsed.matches(v))
                .max()
                .map(|v| v.to_string());
            assert_eq!(highest_candidate(&catalog, req), expected, "for {}", req);
        }
    }
}

#[test]
fn selection_takes_the_exact_version_before_the_semantic_one() {
    assert_eq!(select_version("latest", &catalog()), Ok("1.22.3".to_string()));
    assert_eq!(select_version("1.23rc1", &catalog()), Ok("1.23rc1".to_string()));
    assert_eq!(select_version("1.20", &catalog()), Ok("1.20".to_string()));
    assert_eq!(select_version("1.20.1", &catalog()), Ok("1.20.1".to_string()));
    assert_eq!(select_version("1.21", &catalog()), Ok("1.21.10".to_string()));
    assert_eq!(
        select_version("1.99.0", &catalog()),
        Err(MatchError::VersionNotFound {
            spec: "1.99.0".to_string()
        })
    );
    assert_eq!(
        select_version("1.19", &catalog()),
        Err(MatchError::NoMatchingVersion {
            spec: "1.19".to_string()
        })
    );
    assert_eq!(
        select_version("latest", &vec![release("go1.23rc1", false)]),
        Err(MatchError::NoStableVersion)
    );
    assert!(matches!(
        resolve_go_version("1.23rc1", &catalog()),
        Err(MatchError::InvalidRequirement { .. })
    ));
}
