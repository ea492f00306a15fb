use std::path::PathBuf;
use warp_app::release::UpdateCheckResult;
use warp_app::updater::{GitHubUpdateStage, GitHubUpdater, UpdaterTask};

fn new_version() -> UpdateCheckResult {
    UpdateCheckResult::NewVersion {
        version: "1.3.0".to_string(),
        release_notes: "notes".to_string(),
        asset_url: "https://dl/x".to_string(),
        asset_size: 10,
    }
}

#[test]
fn new_updater_is_idle() {
    let u = GitHubUpdater::new(Some("1.2.3"));
    assert_eq!(u.stage(), &GitHubUpdateStage::Idle);
    assert_eq!(u.current_version(), "1.2.3");
    assert!(u.downloaded_path().is_none());
    assert_eq!(GitHubUpdater::new(None).current_version(), "unknown");
    assert_eq!(GitHubUpdateStage::default(), GitHubUpdateStage::Idle);
}

#[test]
fn check_then_up_to_date() {
    let mut u = GitHubUpdater::new(Some("1.2.3"));
    let a = u.manual_check();
    assert!(a.notify);
    assert!(matches!(a.task, UpdaterTask::FetchLatest { ref current_version } if current_version == "1.2.3"));
    assert_eq!(u.stage(), &GitHubUpdateStage::Checking);
    let a = u.on_check_result(Ok(UpdateCheckResult::UpToDate));
    assert!(a.notify);
    assert!(matches!(a.task, UpdaterTask::Nothing));
    assert_eq!(u.stage(), &GitHubUpdateStage::UpToDate { current_version: "1.2.3".to_string() });
}

#[test]
fn found_version_downloads_then_becomes_ready_and_applies() {
    let mut u = GitHubUpdater::new(Some("1.2.3"));
    u.check_for_update();
    let a = u.on_check_result(Ok(new_version()));
    assert!(matches!(a.task, UpdaterTask::Download { ref url } if url == "https://dl/x"));
    assert_eq!(
        u.stage(),
        &GitHubUpdateStage::Downloading { version: "1.3.0".to_string(), release_notes: "notes".to_string() }
    );
    u.on_download_result(Ok(PathBuf::from("/tmp/warp-update-1")));
    assert_eq!(
        u.stage(),
        &GitHubUpdateStage::UpdateReady { version: "1.3.0".to_string(), release_notes: "notes".to_string() }
    );
    assert_eq!(u.downloaded_path(), &Some(PathBuf::from("/tmp/warp-update-1")));
    let a = u.apply_and_relaunch();
    assert!(a.notify);
    assert!(matches!(a.task, UpdaterTask::ApplyUpdate { ref path } if path == &PathBuf::from("/tmp/warp-update-1")));
    assert_eq!(u.stage(), &GitHubUpdateStage::Applying { version: "1.3.0".to_string() });
    let a = u.on_apply_result(Ok(()));
    assert!(!a.notify);
    assert!(matches!(a.task, UpdaterTask::Relaunch));
}

#[test]
fn apply_without_ready_update_does_nothing() {
    let mut u = GitHubUpdater::new(Some("1.0.0"));
    let a = u.apply_and_relaunch();
    assert!(!a.notify);
    assert!(matches!(a.task, UpdaterTask::Nothing));
    assert_eq!(u.stage(), &GitHubUpdateStage::Idle);
}

#[test]
fn stale_download_is_ignored() {
    let mut u = GitHubUpdater::new(Some("1.0.0"));
    u.check_for_update();
    u.on_check_result(Ok(new_version()));
    u.check_for_update();
    let a = u.on_download_result(Ok(PathBuf::from("/tmp/x")));
    assert!(a.notify);
    assert_eq!(u.stage(), &GitHubUpdateStage::Checking);
    assert!(u.downloaded_path().is_none());
}

#[test]
fn failures_set_error_messages() {
    let mut u = GitHubUpdater::new(Some("1.0.0"));
    u.check_for_update();
    u.on_check_result(Err("offline".to_string()));
    assert_eq!(u.stage(), &GitHubUpdateStage::Error("Update check failed: offline".to_string()));

    u.on_check_result(Ok(new_version()));
    u.on_download_result(Err("timeout".to_string()));
    assert_eq!(u.stage(), &GitHubUpdateStage::Error("Download failed: timeout".to_string()));

    u.on_check_result(Ok(new_version()));
    u.on_download_result(Ok(PathBuf::from("/tmp/y")));
    u.apply_and_relaunch();
    let a = u.on_apply_result(Err("denied".to_string()));
    assert!(a.notify);
    assert_eq!(u.stage(), &GitHubUpdateStage::Error("Failed to apply update: denied".to_string()));
    assert_eq!(u.current_version(), "1.0.0");
}
