use golta::list_remote::{
    list_remote_go_versions, reconcile_catalog, render_versions, same_release, CatalogChoice,
};
use golta::versions::GoVersionInfo;

fn release(version: &str, stable: bool) -> GoVersionInfo {
    GoVersionInfo {
        version: version.to_string(),
        stable,
    }
}

#[test]
fn renders_stable_and_unstable_versions() {
    let versions = vec![
        GoVersionInfo {
            version: "go1.22.1".into(),
            stable: true,
        },
        GoVersionInfo {
            version: "go1.23rc1".into(),
            stable: false,
        },
    ];

    let output = render_versions(&versions);

    assert!(output.contains("Available Go versions:"));
    assert!(output.contains("  1.22.1"));
    assert!(output.contains("  1.23rc1 (unstable)"));
    assert!(output.contains("Use `golta install go@<version>`"));
}

#[test]
fn list_remote_accepts_injected_fetcher() {
    let versions = vec![GoVersionInfo {
        version: "go1.20.0".into(),
        stable: true,
    }];

    let fake_fetcher = || Ok(versions.clone());
    let output = list_remote_go_versions(None, fake_fetcher()).unwrap();

    assert!(output.contains("Fetching available Go versions from go.dev..."));
    assert!(output.contains("  1.20.0"));
}

#[test]
fn rendering_is_exact() {
    let versions = vec![release("go1.22.1", true), release("go1.23rc1", false)];
    assert_eq!(
        render_versions(&versions),
        "\nAvailable Go versions:\n  1.22.1\n  1.23rc1 (unstable)\n\nUse `golta install go@<version>` to install a specific version.\n"
    );
    assert_eq!(
        render_versions(&vec![]),
        "\nAvailable Go versions:\n\nUse `golta install go@<version>` to install a specific version.\n"
    );
}

#[test]
fn failed_fetch_falls_back_to_the_cache() {
    let cached = vec![release("go1.20.0", true), release("go1.19.5", true)];
    let choice = reconcile_catalog(Some(cached.clone()), Err("network error".to_string()));
    assert_eq!(
        choice,
        Ok(CatalogChoice {
            catalog: cached.clone(),
            write_cache: false,
            degraded: true
        })
    );
    let output = list_remote_go_versions(Some(cached), Err("network error".to_string())).unwrap();
    assert_eq!(
        output,
        "Fetching available Go versions from go.dev...\nWarning: could not fetch remote versions (network error); showing cached list.\n\nAvailable Go versions:\n  1.20.0\n  1.19.5\n\nUse `golta install go@<version>` to install a specific version.\n"
    );
}

#[test]
fn failed_fetch_without_cache_is_the_failure() {
    assert_eq!(
        reconcile_catalog(None, Err("network error".to_string())),
        Err("network error".to_string())
    );
    assert_eq!(
        list_remote_go_versions(None, Err("network error".to_string())),
        Err("network error".to_string())
    );
}

#[test]
fn current_cache_is_reused_and_not_written() {
    let cached = vec![
        release("go1.22.0", true),
        release("go1.21.0", true),
        release("go1.20.0", true),
    ];
    let fresh = vec![release("go1.22.0", true), release("go1.21.0", true)];
    assert_eq!(
        reconcile_catalog(Some(cached.clone()), Ok(fresh)),
        Ok(CatalogChoice {
            catalog: cached,
            write_cache: false,
            degraded: false
        })
    );
}

#[test]
fn stale_or_missing_cache_is_overwritten() {
    let cached = vec![release("go1.21.0", true)];
    let fresh = vec![release("go1.22.0", true), release("go1.21.0", true)];
    let expected = Ok(CatalogChoice {
        catalog: fresh.clone(),
        write_cache: true,
        degraded: false,
    });
    assert_eq!(reconcile_catalog(Some(cached), Ok(fresh.clone())), expected);
    assert_eq!(reconcile_catalog(None, Ok(fresh.clone())), expected);
    assert_eq!(reconcile_catalog(Some(vec![]), Ok(fresh.clone())), expected);
    let unstable_now = vec![release("go1.22.0", false)];
    assert_eq!(
        reconcile_catalog(Some(unstable_now), Ok(fresh.clone())),
        expected
    );
    assert_eq!(
        reconcile_catalog(Some(vec![]), Ok(vec![])),
        Ok(CatalogChoice {
            catalog: vec![],
            write_cache: true,
            degraded: false
        })
    );
}

#[test]
fn fetched_listing_has_no_notice() {
    let fresh = vec![release("go1.22.0", true)];
    assert_eq!(
        list_remote_go_versions(None, Ok(fresh)),
        Ok("Fetching available Go versions from go.dev...\n\nAvailable Go versions:\n  1.22.0\n\nUse `golta install go@<version>` to install a specific version.\n".to_string())
    );
}

#[test]
fn releases_are_the_same_by_version_and_stability() {
    assert!(same_release(&release("go1.22.0", true), &release("go1.22.0", true)));
    assert!(!same_release(&release("go1.22.0", true), &release("go1.22.0", false)));
    assert!(!same_release(&release("go1.22.0", true), &release("go1.22.1", true)));
}
