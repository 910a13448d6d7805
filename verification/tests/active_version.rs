use golta::active_version::{find_active_go_version_logic, VersionProvider};
use golta::pinned_version::ResolveError;

struct MockVersionProvider {
    pinned: Result<Option<String>, &'static str>,
    default: Result<Option<String>, &'static str>,
}

impl VersionProvider for MockVersionProvider {
    fn find_pinned_version(&self) -> Result<Option<String>, String> {
        self.pinned.clone().map_err(|e| e.to_string())
    }

    fn find_default_version(&self) -> Result<Option<String>, String> {
        self.default.clone().map_err(|e| e.to_string())
    }
}

#[test]
fn test_prefers_pinned_version() {
    let provider = MockVersionProvider {
        pinned: Ok(Some("1.18.0".to_string())),
        default: Ok(Some("1.17.0".to_string())),
    };
    assert_eq!(
        find_active_go_version_logic(&provider).unwrap(),
        "1.18.0".to_string()
    );
}

#[test]
fn test_falls_back_to_default_version() {
    let provider = MockVersionProvider {
        pinned: Ok(None),
        default: Ok(Some("1.17.0".to_string())),
    };
    assert_eq!(
        find_active_go_version_logic(&provider).unwrap(),
        "1.17.0".to_string()
    );
}

#[test]
fn test_returns_none_when_no_version_is_set() {
    let provider = MockVersionProvider {
        pinned: Ok(None),
        default: Ok(None),
    };
    assert_eq!(
        find_active_go_version_logic(&provider),
        Err(ResolveError::NotActive)
    );
}

#[test]
fn provider_failure_is_handed_on() {
    let provider = MockVersionProvider {
        pinned: Err("disk gone"),
        default: Ok(Some("1.17.0".to_string())),
    };
    assert_eq!(
        find_active_go_version_logic(&provider),
        Err(ResolveError::Unreadable {
            reason: "disk gone".to_string()
        })
    );
    let provider = MockVersionProvider {
        pinned: Ok(None),
        default: Err("no home"),
    };
    assert_eq!(
        find_active_go_version_logic(&provider),
        Err(ResolveError::Unreadable {
            reason: "no home".to_string()
        })
    );
}

#[test]
fn default_failure_is_not_seen_behind_a_pin() {
    let provider = MockVersionProvider {
        pinned: Ok(Some("1.18.0".to_string())),
        default: Err("no home"),
    };
    assert_eq!(
        find_active_go_version_logic(&provider),
        Ok("1.18.0".to_string())
    );
}

#[test]
fn an_empty_version_counts_as_none() {
    let provider = MockVersionProvider {
        pinned: Ok(Some(String::new())),
        default: Ok(Some("1.17.0".to_string())),
    };
    assert_eq!(
        find_active_go_version_logic(&provider),
        Ok("1.17.0".to_string())
    );
    let provider = MockVersionProvider {
        pinned: Ok(None),
        default: Ok(Some(String::new())),
    };
    let err = find_active_go_version_logic(&provider).unwrap_err();
    assert_eq!(err, ResolveError::NotActive);
    assert!(err.message().contains("golta pin"));
    assert!(err.message().contains("golta default"));
}
