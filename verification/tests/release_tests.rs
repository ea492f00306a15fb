use warp_app::release::{
    evaluate_release, expected_asset_name, find_platform_asset, is_success_status, GitHubAsset,
    GitHubRelease, UpdateCheckResult, UpdateError,
};

fn asset(name: &str, url: &str, size: u64) -> GitHubAsset {
    GitHubAsset { name: name.to_string(), browser_download_url: url.to_string(), size }
}

#[test]
fn expected_asset_names_per_platform() {
    assert_eq!(expected_asset_name("windows", "x86_64"), "warp-oss-windows-x86_64.exe");
    assert_eq!(expected_asset_name("macos", "aarch64"), "warp-oss-macos-aarch64");
    assert_eq!(expected_asset_name("macos", "x86_64"), "warp-oss-macos-x86_64");
    assert_eq!(expected_asset_name("linux", "x86_64"), "warp-oss-linux-x86_64");
    assert_eq!(expected_asset_name("linux", "aarch64"), "warp-oss-linux-aarch64");
    assert_eq!(expected_asset_name("windows", "aarch64"), "warp-oss-windows-aarch64");
    assert_eq!(expected_asset_name("freebsd", "x86_64"), "warp-oss-freebsd-x86_64");
}

#[test]
fn find_platform_asset_prefers_exact_name() {
    let assets = vec![
        asset("warp-oss-macos-aarch64", "u1", 1),
        asset("warp-oss-linux-x86_64.tar.gz", "u2", 2),
        asset("warp-oss-linux-x86_64", "u3", 3),
    ];
    let a = find_platform_asset(&assets, "linux", "x86_64").ok().unwrap();
    assert_eq!(a.name, "warp-oss-linux-x86_64");
    assert_eq!(a.browser_download_url, "u3");
    assert_eq!(a.size, 3);
    let m = find_platform_asset(&assets, "macos", "aarch64").ok().unwrap();
    assert_eq!(m.browser_download_url, "u1");
}

#[test]
fn find_platform_asset_falls_back_to_first_prefixed_name() {
    let assets = vec![
        asset("warp-oss-macos-x86_64.zip", "u0", 5),
        asset("warp-oss-linux-x86_64.tar.gz", "u1", 1),
        asset("warp-oss-linux-x86_64.zip", "u2", 2),
    ];
    let a = find_platform_asset(&assets, "linux", "x86_64").ok().unwrap();
    assert_eq!(a.name, "warp-oss-linux-x86_64.tar.gz");
    assert_eq!(a.browser_download_url, "u1");
    assert_eq!(a.size, 1);
}

#[test]
fn find_platform_asset_reports_available_names() {
    let assets = vec![asset("warp-oss-macos-aarch64", "u1", 1), asset("notes.txt", "u2", 2)];
    let err = match find_platform_asset(&assets, "linux", "x86_64") {
        Err(e) => e,
        Ok(_) => panic!("no asset should match"),
    };
    let UpdateError::NoPlatformAsset { expected, available } = &err;
    assert_eq!(expected, "warp-oss-linux-x86_64");
    assert_eq!(available, &vec!["warp-oss-macos-aarch64".to_string(), "notes.txt".to_string()]);
    assert_eq!(
        err.message(),
        "No release asset found for platform 'warp-oss-linux-x86_64'. Available: [warp-oss-macos-aarch64, notes.txt]"
    );
    let empty = find_platform_asset(&vec![], "linux", "x86_64");
    match empty {
        Err(e) => assert_eq!(
            e.message(),
            "No release asset found for platform 'warp-oss-linux-x86_64'. Available: []"
        ),
        Ok(_) => panic!("no asset should match"),
    }
}

#[test]
fn evaluate_release_up_to_date() {
    let release = GitHubRelease { tag_name: "v1.2.3".to_string(), body: None, assets: vec![] };
    assert!(matches!(evaluate_release("1.2.3", &release, "linux", "x86_64"), Ok(UpdateCheckResult::UpToDate)));
    assert!(matches!(evaluate_release("1.3.0", &release, "linux", "x86_64"), Ok(UpdateCheckResult::UpToDate)));
}

#[test]
fn evaluate_release_new_version() {
    let release = GitHubRelease {
        tag_name: "v1.3.0".to_string(),
        body: Some("Fixes".to_string()),
        assets: vec![asset("warp-oss-linux-x86_64.zip", "https://dl/x", 42)],
    };
    match evaluate_release("1.2.9", &release, "linux", "x86_64") {
        Ok(UpdateCheckResult::NewVersion { version, release_notes, asset_url, asset_size }) => {
            assert_eq!(version, "1.3.0");
            assert_eq!(release_notes, "Fixes");
            assert_eq!(asset_url, "https://dl/x");
            assert_eq!(asset_size, 42);
        }
        _ => panic!("a new version was expected"),
    }
    let no_body = GitHubRelease { body: None, ..release };
    match evaluate_release("unknown", &no_body, "linux", "x86_64") {
        Ok(UpdateCheckResult::NewVersion { release_notes, .. }) => assert_eq!(release_notes, ""),
        _ => panic!("a new version was expected"),
    }
}

#[test]
fn evaluate_release_without_platform_asset() {
    let release = GitHubRelease {
        tag_name: "2.0.0".to_string(),
        body: None,
        assets: vec![asset("warp-oss-macos-aarch64", "u", 1)],
    };
    match evaluate_release("1.0.0", &release, "windows", "x86_64") {
        Err(e) => assert_eq!(
            e.message(),
            "No release asset found for platform 'warp-oss-windows-x86_64.exe'. Available: [warp-oss-macos-aarch64]"
        ),
        Ok(_) => panic!("no asset should match"),
    }
}

#[test]
fn success_status_is_2xx() {
    assert!(is_success_status(200));
    assert!(is_success_status(204));
    assert!(is_success_status(299));
    assert!(!is_success_status(199));
    assert!(!is_success_status(300));
    assert!(!is_success_status(404));
}
