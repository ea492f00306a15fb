//! The stages that an update goes through, as a state machine: each method takes the
//! updater from one state to the next on an event and names the work to do next.

use vstd::prelude::*;
use vstd::string::StringExecFns;

use crate::release::UpdateCheckResult;

verus! {

/// Seconds after launch before the first check for updates.
pub const INITIAL_CHECK_DELAY_SECS: u64 = 5;

/// Seconds between the periodic checks for updates, counted from launch.
pub const POLL_INTERVAL_SECS: u64 = 3600;

/// `std::path::PathBuf`, declared so that the updater can hold the path of a downloaded
/// file. The path is only carried through: nothing is claimed of what it holds.
#[verifier::external_type_specification]
#[verifier::external_body]
pub struct ExPathBuf(std::path::PathBuf);

/// The current stage of the GitHub update lifecycle.
#[derive(Clone, Debug, PartialEq)]
pub enum GitHubUpdateStage {
    /// No check has been performed yet.
    Idle,
    /// Currently contacting GitHub to check for a new release.
    Checking,
    /// Checked and the current version is up to date.
    UpToDate { current_version: String },
    /// A newer release was found and is being downloaded.
    Downloading { version: String, release_notes: String },
    /// The update has been downloaded and is ready to be applied.
    UpdateReady { version: String, release_notes: String },
    /// Applying the update (replacing files).
    Applying { version: String },
    /// An error occurred during the update process.
    Error(String),
}

/// A stage, with its texts as character sequences.
pub enum StageView {
    Idle,
    Checking,
    UpToDate { current_version: Seq<char> },
    Downloading { version: Seq<char>, release_notes: Seq<char> },
    UpdateReady { version: Seq<char>, release_notes: Seq<char> },
    Applying { version: Seq<char> },
    Error(Seq<char>),
}

impl View for GitHubUpdateStage {
    type V = StageView;

    open spec fn view(&self) -> StageView {
        match self {
            GitHubUpdateStage::Idle => StageView::Idle,
            GitHubUpdateStage::Checking => StageView::Checking,
            GitHubUpdateStage::UpToDate { current_version } => StageView::UpToDate {
                current_version: current_version@,
            },
            GitHubUpdateStage::Downloading { version, release_notes } => StageView::Downloading {
                version: version@,
                release_notes: release_notes@,
            },
            GitHubUpdateStage::UpdateReady { version, release_notes } => StageView::UpdateReady {
                version: version@,
                release_notes: release_notes@,
            },
            GitHubUpdateStage::Applying { version } => StageView::Applying { version: version@ },
            GitHubUpdateStage::Error(m) => StageView::Error(m@),
        }
    }
}

impl Default for GitHubUpdateStage {
    fn default() -> (r: Self)
        ensures
            r@ == StageView::Idle,
    {
        GitHubUpdateStage::Idle
    }
}

/// A copy of the path (`<PathBuf as Clone>::clone`). Claimed: the copy equals the path
/// given.
#[verifier::external_body]
fn clone_path(p: &std::path::PathBuf) -> (r: std::path::PathBuf)
    ensures
        r == *p,
{
    p.clone()
}

/// Keeps track of where the update stands.
pub struct GitHubUpdater {
    stage: GitHubUpdateStage,
    current_version: String,
    downloaded_path: Option<std::path::PathBuf>,
}

/// The state of an updater.
pub struct UpdaterView {
    pub stage: StageView,
    pub current_version: Seq<char>,
    pub downloaded_path: Option<std::path::PathBuf>,
}

/// Work that the caller performs after a step, and whose result it hands back.
pub enum UpdaterTask {
    /// Nothing to do.
    Nothing,
    /// Ask GitHub for its latest release and compare it with `current_version`; hand the
    /// result to `on_check_result`.
    FetchLatest { current_version: String },
    /// Download the asset at `url`; hand the result to `on_download_result`.
    Download { url: String },
    /// Put the downloaded update at `path` in place of the executable; hand the result to
    /// `on_apply_result`.
    ApplyUpdate { path: std::path::PathBuf },
    /// Start the new executable and end this process.
    Relaunch,
}

/// A task, with its texts as character sequences.
pub enum TaskView {
    Nothing,
    FetchLatest { current_version: Seq<char> },
    Download { url: Seq<char> },
    ApplyUpdate { path: std::path::PathBuf },
    Relaunch,
}

impl View for UpdaterTask {
    type V = TaskView;

    open spec fn view(&self) -> TaskView {
        match self {
            UpdaterTask::Nothing => TaskView::Nothing,
            UpdaterTask::FetchLatest { current_version } => TaskView::FetchLatest {
                current_version: current_version@,
            },
            UpdaterTask::Download { url } => TaskView::Download { url: url@ },
            UpdaterTask::ApplyUpdate { path } => TaskView::ApplyUpdate { path: *path },
            UpdaterTask::Relaunch => TaskView::Relaunch,
        }
    }
}

/// What a step asks of its caller: whether observers of the updater are to be notified
/// of a change, and the work to do next.
pub struct UpdaterAction {
    pub notify: bool,
    pub task: UpdaterTask,
}

// ---------------------------------------------------------------------------
// Model of the steps
// ---------------------------------------------------------------------------

/// The state once a check has started.
pub open spec fn after_check_started(s: UpdaterView) -> UpdaterView {
    UpdaterView { stage: StageView::Checking, ..s }
}

/// The state once the check's result has come back.
pub open spec fn after_check_result(s: UpdaterView, result: Result<UpdateCheckResult, String>) -> UpdaterView {
    match result {
        Ok(UpdateCheckResult::UpToDate) => UpdaterView {
            stage: StageView::UpToDate { current_version: s.current_version },
            ..s
        },
        Ok(UpdateCheckResult::NewVersion { version, release_notes, .. }) => UpdaterView {
            stage: StageView::Downloading { version: version@, release_notes: release_notes@ },
            ..s
        },
        Err(e) => UpdaterView { stage: StageView::Error("Update check failed: "@ + e@), ..s },
    }
}

/// The state once the download's result has come back. A download that ends while no
/// download is under way changes nothing.
pub open spec fn after_download(s: UpdaterView, result: Result<std::path::PathBuf, String>) -> UpdaterView {
    match result {
        Ok(path) => match s.stage {
            StageView::Downloading { version, release_notes } => UpdaterView {
                stage: StageView::UpdateReady { version, release_notes },
                downloaded_path: Some(path),
                ..s
            },
            _ => s,
        },
        Err(e) => UpdaterView { stage: StageView::Error("Download failed: "@ + e@), ..s },
    }
}

/// The state once the user has asked to apply the update: only a ready update is applied.
pub open spec fn after_apply_request(s: UpdaterView) -> UpdaterView {
    match s.stage {
        StageView::UpdateReady { version, .. } => UpdaterView {
            stage: StageView::Applying { version },
            ..s
        },
        _ => s,
    }
}

/// The state once putting the update in place has ended.
pub open spec fn after_apply_result(s: UpdaterView, result: Result<(), String>) -> UpdaterView {
    match result {
        Ok(()) => s,
        Err(e) => UpdaterView { stage: StageView::Error("Failed to apply update: "@ + e@), ..s },
    }
}

impl GitHubUpdater {
    /// The state of the updater.
    /// A ready update has its downloaded file.
    #[verifier::type_invariant]
    spec fn ready_update_has_file(self) -> bool {
        ready_has_download(self.view())
    }

    pub closed spec fn view(&self) -> UpdaterView {
        UpdaterView {
            stage: self.stage@,
            current_version: self.current_version@,
            downloaded_path: self.downloaded_path,
        }
    }

    /// A fresh updater for the running version (`"unknown"` where the version is not known).
    pub fn new(app_version: Option<&str>) -> (r: Self)
        ensures
            r.view().stage == StageView::Idle,
            r.view().current_version == match app_version {
                Some(v) => v@,
                None => "unknown"@,
            },
            r.view().downloaded_path is None,
    {
        let current_version = match app_version {
            Some(v) => String::from_str(v),
            None => String::from_str("unknown"),
        };
        GitHubUpdater { stage: GitHubUpdateStage::Idle, current_version, downloaded_path: None }
    }

    /// The stage the update is at.
    pub fn stage(&self) -> (r: &GitHubUpdateStage)
        ensures
            r@ == self.view().stage,
    {
        &self.stage
    }

    /// The running version.
    pub fn current_version(&self) -> (r: &str)
        ensures
            r@ == self.view().current_version,
    {
        self.current_version.as_str()
    }

    /// Where the update was downloaded to, once it has been.
    pub fn downloaded_path(&self) -> (r: &Option<std::path::PathBuf>)
        ensures
            *r == self.view().downloaded_path,
    {
        &self.downloaded_path
    }

    /// Starts a check for a newer release.
    pub fn check_for_update(&mut self) -> (r: UpdaterAction)
        ensures
            final(self).view() == after_check_started(old(self).view()),
            r.notify,
            r.task@ == (TaskView::FetchLatest { current_version: old(self).view().current_version }),
    {
        self.stage = GitHubUpdateStage::Checking;
        UpdaterAction {
            notify: true,
            task: UpdaterTask::FetchLatest { current_version: self.current_version.clone() },
        }
    }

    /// Triggered by the user from the Settings UI: starts a check for a newer release.
    pub fn manual_check(&mut self) -> (r: UpdaterAction)
        ensures
            final(self).view() == after_check_started(old(self).view()),
            r.notify,
            r.task@ == (TaskView::FetchLatest { current_version: old(self).view().current_version }),
    {
        self.check_for_update()
    }

    /// Takes in what the check found: up to date, or a newer version whose asset is then
    /// downloaded, or the error that the check ran into.
    pub fn on_check_result(&mut self, result: Result<UpdateCheckResult, String>) -> (r: UpdaterAction)
        ensures
            final(self).view() == after_check_result(old(self).view(), result),
            r.notify,
            r.task@ == match result {
                Ok(UpdateCheckResult::NewVersion { asset_url, .. }) => TaskView::Download {
                    url: asset_url@,
                },
                _ => TaskView::Nothing,
            },
    {
        match result {
            Ok(UpdateCheckResult::UpToDate) => {
                self.stage = GitHubUpdateStage::UpToDate {
                    current_version: self.current_version.clone(),
                };
                UpdaterAction { notify: true, task: UpdaterTask::Nothing }
            },
            Ok(UpdateCheckResult::NewVersion { version, release_notes, asset_url, .. }) => {
                self.stage = GitHubUpdateStage::Downloading { version, release_notes };
                UpdaterAction { notify: true, task: UpdaterTask::Download { url: asset_url } }
            },
            Err(e) => {
                let mut m = String::from_str("Update check failed: ");
                m.append(e.as_str());
                self.stage = GitHubUpdateStage::Error(m);
                UpdaterAction { notify: true, task: UpdaterTask::Nothing }
            },
        }
    }

    /// Takes in the end of a download: the path of the downloaded file makes the update
    /// ready (where a download was under way), an error ends in the error stage.
    pub fn on_download_result(&mut self, result: Result<std::path::PathBuf, String>) -> (r:
        UpdaterAction)
        ensures
            final(self).view() == after_download(old(self).view(), result),
            r.notify,
            r.task@ == TaskView::Nothing,
    {
        match result {
            Ok(path) => {
                let ready = match &self.stage {
                    GitHubUpdateStage::Downloading { version, release_notes } => Some(
                        GitHubUpdateStage::UpdateReady {
                            version: version.clone(),
                            release_notes: release_notes.clone(),
                        },
                    ),
                    _ => None,
                };
                if let Some(stage) = ready {
                    self.downloaded_path = Some(path);
                    self.stage = stage;
                }
            },
            Err(e) => {
                let mut m = String::from_str("Download failed: ");
                m.append(e.as_str());
                self.stage = GitHubUpdateStage::Error(m);
            },
        }
        UpdaterAction { notify: true, task: UpdaterTask::Nothing }
    }

    /// Triggered by the user to apply a downloaded update: does so only where an update
    /// is ready.
    pub fn apply_and_relaunch(&mut self) -> (r: UpdaterAction)
        ensures
            final(self).view() == after_apply_request(old(self).view()),
            r.notify == old(self).view().stage is UpdateReady,
            old(self).view().stage is UpdateReady ==> old(self).view().downloaded_path is Some,
            r.task@ == if old(self).view().stage is UpdateReady {
                TaskView::ApplyUpdate { path: old(self).view().downloaded_path->Some_0 }
            } else {
                TaskView::Nothing
            },
    {
        proof {
            use_type_invariant(&*self);
        }
        let version = match &self.stage {
            GitHubUpdateStage::UpdateReady { version, .. } => version.clone(),
            _ => {
                return UpdaterAction { notify: false, task: UpdaterTask::Nothing };
            },
        };
        let path = match &self.downloaded_path {
            Some(p) => clone_path(p),
            None => {
                return UpdaterAction { notify: false, task: UpdaterTask::Nothing };
            },
        };
        self.stage = GitHubUpdateStage::Applying { version };
        UpdaterAction { notify: true, task: UpdaterTask::ApplyUpdate { path } }
    }

    /// Takes in the end of putting the update in place: relaunch on success, the error
    /// stage otherwise.
    pub fn on_apply_result(&mut self, result: Result<(), String>) -> (r: UpdaterAction)
        ensures
            final(self).view() == after_apply_result(old(self).view(), result),
            r.notify == result is Err,
            r.task@ == if result is Ok {
                TaskView::Relaunch
            } else {
                TaskView::Nothing
            },
    {
        match result {
            Ok(()) => UpdaterAction { notify: false, task: UpdaterTask::Relaunch },
            Err(e) => {
                let mut m = String::from_str("Failed to apply update: ");
                m.append(e.as_str());
                self.stage = GitHubUpdateStage::Error(m);
                UpdaterAction { notify: true, task: UpdaterTask::Nothing }
            },
        }
    }
}

} // verus!

verus! {

// ---------------------------------------------------------------------------
// Laws
// ---------------------------------------------------------------------------

/// The version that a check finds is the one that becomes ready once its download ends,
/// with its notes, and the downloaded file is remembered.
pub proof fn law_found_version_becomes_ready(
    s: UpdaterView,
    version: String,
    release_notes: String,
    asset_url: String,
    asset_size: u64,
    path: std::path::PathBuf,
)
    ensures
        ({
            let found = UpdateCheckResult::NewVersion { version, release_notes, asset_url, asset_size };
            let t = after_download(after_check_result(after_check_started(s), Ok(found)), Ok(path));
            &&& t.stage == (StageView::UpdateReady { version: version@, release_notes: release_notes@ })
            &&& t.downloaded_path == Some(path)
            &&& t.current_version == s.current_version
        }),
{
}

/// A check that finds nothing newer reports the running version as up to date.
pub proof fn law_up_to_date_reports_running_version(s: UpdaterView)
    ensures
        after_check_result(after_check_started(s), Ok(UpdateCheckResult::UpToDate)).stage
            == (StageView::UpToDate { current_version: s.current_version }),
{
}

/// An update is applied only when one is ready, and it is the ready version that is applied;
/// otherwise asking to apply changes nothing.
pub proof fn law_apply_only_when_ready(s: UpdaterView)
    ensures
        after_apply_request(s) != s <==> s.stage is UpdateReady,
        s.stage is UpdateReady ==> after_apply_request(s).stage == (StageView::Applying {
            version: s.stage->UpdateReady_version,
        }),
        !(s.stage is UpdateReady) ==> after_apply_request(s) == s,
{
}

/// A download that ends while none is under way (say, a new check began meanwhile) leaves
/// the updater as it was.
pub proof fn law_stale_download_is_ignored(s: UpdaterView, path: std::path::PathBuf)
    ensures
        !(s.stage is Downloading) ==> after_download(s, Ok(path)) == s,
{
}

/// Every failure ends in the error stage, with a message that says which step failed.
pub proof fn law_failures_end_in_error(s: UpdaterView, e: String)
    ensures
        after_check_result(s, Err(e)).stage == StageView::Error("Update check failed: "@ + e@),
        after_download(s, Err(e)).stage == StageView::Error("Download failed: "@ + e@),
        after_apply_result(s, Err(e)).stage == StageView::Error("Failed to apply update: "@ + e@),
{
}

/// No step changes the running version.
pub proof fn law_running_version_is_kept(
    s: UpdaterView,
    check: Result<UpdateCheckResult, String>,
    download: Result<std::path::PathBuf, String>,
    apply: Result<(), String>,
)
    ensures
        after_check_started(s).current_version == s.current_version,
        after_check_result(s, check).current_version == s.current_version,
        after_download(s, download).current_version == s.current_version,
        after_apply_request(s).current_version == s.current_version,
        after_apply_result(s, apply).current_version == s.current_version,
{
}

/// Only a finished download sets the downloaded file; no other step touches it.
pub proof fn law_only_download_sets_path(
    s: UpdaterView,
    check: Result<UpdateCheckResult, String>,
    apply: Result<(), String>,
    e: String,
)
    ensures
        after_check_started(s).downloaded_path == s.downloaded_path,
        after_check_result(s, check).downloaded_path == s.downloaded_path,
        after_download(s, Err(e)).downloaded_path == s.downloaded_path,
        after_apply_request(s).downloaded_path == s.downloaded_path,
        after_apply_result(s, apply).downloaded_path == s.downloaded_path,
{
}

/// A ready update has its downloaded file.
pub open spec fn ready_has_download(s: UpdaterView) -> bool {
    s.stage is UpdateReady ==> s.downloaded_path is Some
}

/// A fresh updater has no ready update, and every step keeps a ready update together with
/// its downloaded file: in every state that the steps reach, a ready update has its file.
pub proof fn law_ready_update_has_its_file(
    s: UpdaterView,
    version: Seq<char>,
    check: Result<UpdateCheckResult, String>,
    download: Result<std::path::PathBuf, String>,
    apply: Result<(), String>,
)
    requires
        ready_has_download(s),
    ensures
        ready_has_download(
            UpdaterView { stage: StageView::Idle, current_version: version, downloaded_path: None },
        ),
        ready_has_download(after_check_started(s)),
        ready_has_download(after_check_result(s, check)),
        ready_has_download(after_download(s, download)),
        ready_has_download(after_apply_request(s)),
        ready_has_download(after_apply_result(s, apply)),
{
}

/// Once a check has started the updater is never idle again: no step goes back to `Idle`.
pub proof fn law_never_idle_after_a_check(
    s: UpdaterView,
    check: Result<UpdateCheckResult, String>,
    download: Result<std::path::PathBuf, String>,
    apply: Result<(), String>,
)
    ensures
        !(after_check_started(s).stage is Idle),
        !(s.stage is Idle) ==> !(after_check_result(s, check).stage is Idle),
        !(s.stage is Idle) ==> !(after_download(s, download).stage is Idle),
        !(s.stage is Idle) ==> !(after_apply_request(s).stage is Idle),
        !(s.stage is Idle) ==> !(after_apply_result(s, apply).stage is Idle),
{
}

/// Starting a check always shows `Checking`, whatever stage the updater was at (an error
/// of an earlier check included), and changes nothing else.
pub proof fn law_check_always_shows_checking(s: UpdaterView)
    ensures
        after_check_started(s).stage == StageView::Checking,
        after_check_started(s).current_version == s.current_version,
        after_check_started(s).downloaded_path == s.downloaded_path,
{
}

} // verus!
