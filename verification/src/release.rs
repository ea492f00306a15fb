//! What a release on GitHub offers, and the choice of the update for this platform.

use vstd::prelude::*;
use vstd::string::StringExecFns;

use crate::text::{join, join_spec, seq_starts_with, starts_with, str_eq, string_views};
use crate::version::{is_newer, is_newer_spec, strip_v_prefix, strip_v_spec};

verus! {

/// A file attached to a release.
pub struct GitHubAsset {
    pub name: String,
    pub browser_download_url: String,
    pub size: u64,
}

/// The latest release of the repository, as the GitHub API describes it.
pub struct GitHubRelease {
    pub tag_name: String,
    pub body: Option<String>,
    pub assets: Vec<GitHubAsset>,
}

/// What a check for updates found.
pub enum UpdateCheckResult {
    /// The running version is the latest.
    UpToDate,
    /// A newer release, with the asset to download for this platform.
    NewVersion { version: String, release_notes: String, asset_url: String, asset_size: u64 },
}

/// Why a release cannot be used.
pub enum UpdateError {
    /// No asset of the release is named for this platform.
    NoPlatformAsset { expected: String, available: Vec<String> },
}

// ---------------------------------------------------------------------------
// Model
// ---------------------------------------------------------------------------

/// The asset name that this platform looks for.
pub open spec fn expected_asset_name_spec(os: Seq<char>, arch: Seq<char>) -> Seq<char> {
    "warp-oss-"@ + os + "-"@ + arch + if os == "windows"@ && arch == "x86_64"@ {
        ".exe"@
    } else {
        Seq::<char>::empty()
    }
}

/// The asset's name fits the expected one: equals it (`exact`), or begins with it
/// (an archive such as `.tar.gz` or `.zip`).
pub open spec fn name_fits(asset: GitHubAsset, expected: Seq<char>, exact: bool) -> bool {
    if exact {
        asset.name@ == expected
    } else {
        seq_starts_with(asset.name@, expected)
    }
}

/// The position of the first asset whose name fits, if one does.
pub open spec fn first_fit(assets: Seq<GitHubAsset>, expected: Seq<char>, exact: bool) -> Option<int>
    decreases assets.len(),
{
    if assets.len() == 0 {
        None
    } else {
        match first_fit(assets.drop_last(), expected, exact) {
            Some(i) => Some(i),
            None => if name_fits(assets.last(), expected, exact) {
                Some(assets.len() - 1)
            } else {
                None
            },
        }
    }
}

/// The position of the asset for the platform: the first named exactly as expected, or,
/// where there is none, the first whose name begins with the expected one.
pub open spec fn chosen_asset(assets: Seq<GitHubAsset>, expected: Seq<char>) -> Option<int> {
    match first_fit(assets, expected, true) {
        Some(i) => Some(i),
        None => first_fit(assets, expected, false),
    }
}

/// The names of the assets, in order.
pub open spec fn asset_names(assets: Seq<GitHubAsset>) -> Seq<Seq<char>> {
    assets.map_values(|a: GitHubAsset| a.name@)
}

/// `e` reports that none of `assets` is named for `expected`.
pub open spec fn is_no_asset_error(e: UpdateError, assets: Seq<GitHubAsset>, expected: Seq<char>) -> bool {
    match e {
        UpdateError::NoPlatformAsset { expected: x, available } => {
            &&& x@ == expected
            &&& string_views(available@) == asset_names(assets)
        },
    }
}

/// The release notes, or nothing where the release has none.
pub open spec fn notes_of(body: Option<String>) -> Seq<char> {
    match body {
        Some(b) => b@,
        None => Seq::<char>::empty(),
    }
}

/// The text of an error.
pub open spec fn error_message_spec(e: UpdateError) -> Seq<char> {
    match e {
        UpdateError::NoPlatformAsset { expected, available } => "No release asset found for platform '"@
            + expected@ + "'. Available: ["@ + join_spec(string_views(available@), ", "@)
            + "]"@,
    }
}

// ---------------------------------------------------------------------------
// Lemmas and laws
// ---------------------------------------------------------------------------

/// `first_fit` gives the least position whose name fits, and nothing where none fits.
pub proof fn law_first_fit_is_least(assets: Seq<GitHubAsset>, expected: Seq<char>, exact: bool)
    ensures
        match first_fit(assets, expected, exact) {
            Some(i) => 0 <= i < assets.len() && name_fits(assets[i], expected, exact) && forall|
                j: int,
            | 0 <= j < i ==> !name_fits(#[trigger] assets[j], expected, exact),
            None => forall|j: int|
                0 <= j < assets.len() ==> !name_fits(#[trigger] assets[j], expected, exact),
        },
    decreases assets.len(),
{
    if assets.len() > 0 {
        law_first_fit_is_least(assets.drop_last(), expected, exact);
        assert forall|j: int| 0 <= j < assets.len() - 1 implies assets.drop_last()[j] == assets[j] by {
        }
    }
}

/// An asset named exactly as expected is chosen before any whose name only begins with
/// it, wherever it stands; an asset is chosen whenever one's name begins with the expected
/// one; and the chosen one's name always begins with it.
pub proof fn law_exact_name_wins(assets: Seq<GitHubAsset>, expected: Seq<char>)
    ensures
        (exists|j: int| 0 <= j < assets.len() && #[trigger] assets[j].name@ == expected)
            ==> (chosen_asset(assets, expected) matches Some(i) && assets[i].name@ == expected),
        chosen_asset(assets, expected) is None <==> forall|j: int|
            0 <= j < assets.len() ==> !seq_starts_with(#[trigger] assets[j].name@, expected),
        chosen_asset(assets, expected) matches Some(i) ==> (0 <= i < assets.len()
            && seq_starts_with(assets[i].name@, expected)),
{
    law_first_fit_is_least(assets, expected, true);
    law_first_fit_is_least(assets, expected, false);
    if exists|j: int| 0 <= j < assets.len() && #[trigger] assets[j].name@ == expected {
        let j = choose|j: int| 0 <= j < assets.len() && #[trigger] assets[j].name@ == expected;
        assert(name_fits(assets[j], expected, true));
    }
    if let Some(i) = first_fit(assets, expected, true) {
        assert(assets[i].name@.take(expected.len() as int) =~= expected);
    }
    assert forall|j: int| 0 <= j < assets.len() && assets[j].name@ == expected implies
        seq_starts_with(#[trigger] assets[j].name@, expected) by {
        assert(assets[j].name@.take(expected.len() as int) =~= expected);
    }
    if first_fit(assets, expected, false) is None && first_fit(assets, expected, true) is Some {
        let i = first_fit(assets, expected, true)->0;
        assert(name_fits(assets[i], expected, true));
        assert(!name_fits(assets[i], expected, false));
    }
}

// ---------------------------------------------------------------------------
// Code
// ---------------------------------------------------------------------------

impl GitHubAsset {
    /// A copy of the asset.
    pub fn duplicate(&self) -> (r: GitHubAsset)
        ensures
            r == *self,
    {
        GitHubAsset {
            name: self.name.clone(),
            browser_download_url: self.browser_download_url.clone(),
            size: self.size,
        }
    }
}

impl UpdateError {
    /// The text of the error, as it is shown to the user.
    pub fn message(&self) -> (r: String)
        ensures
            r@ == error_message_spec(*self),
    {
        match self {
            UpdateError::NoPlatformAsset { expected, available } => {
                let mut r = String::from_str("No release asset found for platform '");
                r.append(expected.as_str());
                r.append("'. Available: [");
                let names = join(available, ", ");
                r.append(names.as_str());
                r.append("]");
                r
            },
        }
    }
}

/// The name of the release asset for the platform with this operating system and
/// architecture (the names that `std::env::consts::OS` and `ARCH` give).
pub fn expected_asset_name(os: &str, arch: &str) -> (r: String)
    ensures
        r@ == expected_asset_name_spec(os@, arch@),
{
    let mut r = String::from_str("warp-oss-");
    r.append(os);
    r.append("-");
    r.append(arch);
    if str_eq(os, "windows") && str_eq(arch, "x86_64") {
        r.append(".exe");
    } else {
        assert(r@ =~= r@ + Seq::<char>::empty());
    }
    r
}

/// The position of the first asset whose name equals (`exact`) or begins with `expected`.
fn first_fit_index(assets: &Vec<GitHubAsset>, expected: &String, exact: bool) -> (r: Option<usize>)
    ensures
        r matches Some(i) ==> first_fit(assets@, expected@, exact) == Some(i as int),
        r is None ==> first_fit(assets@, expected@, exact) is None,
{
    let mut i: usize = 0;
    while i < assets.len()
        invariant
            i <= assets@.len(),
            first_fit(assets@.take(i as int), expected@, exact) is None,
        decreases assets.len() - i,
    {
        let a = &assets[i];
        assert(assets@.take(i + 1).drop_last() =~= assets@.take(i as int));
        let fits = if exact {
            str_eq(a.name.as_str(), expected.as_str())
        } else {
            starts_with(a.name.as_str(), expected.as_str())
        };
        if fits {
            proof {
                lemma_first_fit_prefix(assets@, expected@, exact, i + 1);
            }
            return Some(i);
        }
        i = i + 1;
    }
    assert(assets@.take(assets@.len() as int) =~= assets@);
    None
}

/// The asset for the platform: the first named exactly as expected, else the first whose
/// name begins with the expected name (an archive such as `.tar.gz` or `.zip`); or the
/// error that lists the names of all assets.
pub fn find_platform_asset(assets: &Vec<GitHubAsset>, os: &str, arch: &str) -> (r: Result<
    GitHubAsset,
    UpdateError,
>)
    ensures
        match chosen_asset(assets@, expected_asset_name_spec(os@, arch@)) {
            Some(i) => r == Ok::<GitHubAsset, UpdateError>(assets@[i]),
            None => r matches Err(e) && is_no_asset_error(
                e,
                assets@,
                expected_asset_name_spec(os@, arch@),
            ),
        },
{
    let expected = expected_asset_name(os, arch);
    if let Some(i) = first_fit_index(assets, &expected, true) {
        proof {
            law_first_fit_is_least(assets@, expected@, true);
        }
        return Ok(assets[i].duplicate());
    }
    if let Some(i) = first_fit_index(assets, &expected, false) {
        proof {
            law_first_fit_is_least(assets@, expected@, false);
        }
        return Ok(assets[i].duplicate());
    }
    let mut available: Vec<String> = Vec::new();
    let mut k: usize = 0;
    while k < assets.len()
        invariant
            k <= assets@.len(),
            available@.len() == k,
            forall|j: int| 0 <= j < k ==> #[trigger] available@[j] == assets@[j].name,
        decreases assets.len() - k,
    {
        available.push(assets[k].name.clone());
        k = k + 1;
    }
    assert(string_views(available@) =~= asset_names(assets@));
    Err(UpdateError::NoPlatformAsset { expected, available })
}

/// Where a prefix of the assets holds a fitting name, the first fit of the whole sequence
/// is that of the prefix.
proof fn lemma_first_fit_prefix(assets: Seq<GitHubAsset>, expected: Seq<char>, exact: bool, k: int)
    requires
        0 <= k <= assets.len(),
        first_fit(assets.take(k), expected, exact) is Some,
    ensures
        first_fit(assets, expected, exact) == first_fit(assets.take(k), expected, exact),
    decreases assets.len(),
{
    if k < assets.len() {
        assert(assets.drop_last().take(k) =~= assets.take(k));
        lemma_first_fit_prefix(assets.drop_last(), expected, exact, k);
    } else {
        assert(assets.take(k) =~= assets);
    }
}

} // verus!

verus! {

/// What a check gives for a release that reached us: up to date where its version (the tag
/// without a leading `v`) is not newer than `current_version`; otherwise the version, its
/// notes and the asset for the platform, or the error that no asset is named for it.
pub open spec fn release_outcome_ok(
    current_version: Seq<char>,
    release: GitHubRelease,
    expected: Seq<char>,
    r: Result<UpdateCheckResult, UpdateError>,
) -> bool {
    let latest = strip_v_spec(release.tag_name@);
    if !is_newer_spec(current_version, latest) {
        r matches Ok(UpdateCheckResult::UpToDate)
    } else {
        match chosen_asset(release.assets@, expected) {
            Some(i) => r matches Ok(
                UpdateCheckResult::NewVersion { version, release_notes, asset_url, asset_size },
            ) && version@ == latest && release_notes@ == notes_of(release.body) && asset_url
                == release.assets@[i].browser_download_url && asset_size
                == release.assets@[i].size,
            None => r matches Err(e) && is_no_asset_error(e, release.assets@, expected),
        }
    }
}

/// Decides what the latest release means for the running version `current_version`
/// on the platform `os`/`arch`.
pub fn evaluate_release(current_version: &str, release: &GitHubRelease, os: &str, arch: &str) -> (r:
    Result<UpdateCheckResult, UpdateError>)
    ensures
        release_outcome_ok(current_version@, *release, expected_asset_name_spec(os@, arch@), r),
{
    let latest_version = strip_v_prefix(release.tag_name.as_str());
    if !is_newer(current_version, latest_version.as_str()) {
        return Ok(UpdateCheckResult::UpToDate);
    }
    let asset = match find_platform_asset(&release.assets, os, arch) {
        Ok(a) => a,
        Err(e) => return Err(e),
    };
    let release_notes = match &release.body {
        Some(b) => b.clone(),
        None => String::new(),
    };
    Ok(
        UpdateCheckResult::NewVersion {
            version: latest_version,
            release_notes,
            asset_url: asset.browser_download_url,
            asset_size: asset.size,
        },
    )
}

/// Whether an HTTP status code reports success (the 2xx class, as `StatusCode::is_success`).
pub fn is_success_status(status: u16) -> (r: bool)
    ensures
        r == (200 <= status && status <= 299),
{
    200 <= status && status <= 299
}

} // verus!

verus! {

/// A release newer than the running version is offered whenever one of its assets is named
/// for the platform: as the new version (the tag without a leading `v`), with the release's
/// notes and the size and address of an asset named for the platform (one named exactly as
/// expected where there is one). A release that is not newer is reported as up to date, and
/// a newer one without an asset for the platform gives the error that lists the assets.
pub proof fn law_newer_release_is_offered(
    current: Seq<char>,
    release: GitHubRelease,
    expected: Seq<char>,
    r: Result<UpdateCheckResult, UpdateError>,
)
    requires
        release_outcome_ok(current, release, expected, r),
    ensures
        !is_newer_spec(current, strip_v_spec(release.tag_name@)) ==> (r matches Ok(
            UpdateCheckResult::UpToDate,
        )),
        is_newer_spec(current, strip_v_spec(release.tag_name@)) && (exists|j: int|
            0 <= j < release.assets@.len() && seq_starts_with(
                #[trigger] release.assets@[j].name@,
                expected,
            )) ==> (r matches Ok(
            UpdateCheckResult::NewVersion { version, release_notes, asset_url, asset_size },
        ) && version@ == strip_v_spec(release.tag_name@) && release_notes@ == notes_of(
            release.body,
        ) && exists|i: int|
            0 <= i < release.assets@.len() && seq_starts_with(
                #[trigger] release.assets@[i].name@,
                expected,
            ) && asset_url == release.assets@[i].browser_download_url && asset_size
                == release.assets@[i].size && ((exists|j: int|
                0 <= j < release.assets@.len() && #[trigger] release.assets@[j].name@ == expected)
                ==> release.assets@[i].name@ == expected)),
        is_newer_spec(current, strip_v_spec(release.tag_name@)) && (forall|j: int|
            0 <= j < release.assets@.len() ==> !seq_starts_with(
                #[trigger] release.assets@[j].name@,
                expected,
            )) ==> (r matches Err(e) && is_no_asset_error(e, release.assets@, expected)),
{
    law_exact_name_wins(release.assets@, expected);
    if let Some(i) = chosen_asset(release.assets@, expected) {
        assert(seq_starts_with(release.assets@[i].name@, expected));
    }
}

} // verus!

verus! {

/// The asset for 64-bit x86 Windows is `warp-oss-windows-x86_64.exe`; for every other
/// platform it is `warp-oss-{os}-{arch}`.
pub proof fn law_asset_name_names_the_platform(os: Seq<char>, arch: Seq<char>)
    ensures
        os == "windows"@ && arch == "x86_64"@ ==> expected_asset_name_spec(os, arch)
            == "warp-oss-windows-x86_64.exe"@,
        !(os == "windows"@ && arch == "x86_64"@) ==> expected_asset_name_spec(os, arch)
            == "warp-oss-"@ + os + "-"@ + arch,
{
    if os == "windows"@ && arch == "x86_64"@ {
        reveal_strlit("warp-oss-");
        reveal_strlit("windows");
        reveal_strlit("-");
        reveal_strlit("x86_64");
        reveal_strlit(".exe");
        reveal_strlit("warp-oss-windows-x86_64.exe");
        assert("warp-oss-"@ + os + "-"@ + arch + ".exe"@ =~= "warp-oss-windows-x86_64.exe"@);
    } else {
        assert("warp-oss-"@ + os + "-"@ + arch + Seq::<char>::empty() =~= "warp-oss-"@ + os + "-"@
            + arch);
    }
}

} // verus!
