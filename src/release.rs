//! Fetching a versioned executable from a GitHub release. The resolution is
//! a state machine: it asks its caller for one piece of outside work at a
//! time (a look at the disk, a request, a download) and decides from the
//! answer. A release without an asset for this platform is expected and
//! degrades to the bare package name; a failed download is an error.
use vstd::prelude::*;

use crate::text::{concat, owned, str_eq};
use crate::utils::{get_version_dir, version_dir};

verus! {

/// A release without an asset for this platform is an expected condition:
/// the resolution falls back to the bare package name.
pub const MISSING_ASSET_IS_EXPECTED: bool = true;

/// How a downloaded file is unpacked.
#[derive(Clone, Copy, Debug, PartialEq, Eq, Structural)]
pub enum DownloadedFileType {
    Gzip,
    GzipTar,
    Zip,
    Uncompressed,
}

/// One downloadable file of a release.
pub struct ReleaseAsset {
    pub name: String,
    pub download_url: String,
}

/// What the resolution asks its caller to do next.
pub enum ReleaseAction {
    /// Report whether the path exists on disk.
    CheckExists(String),
    /// Fetch the release of a repository by its tag.
    FetchRelease(String, String),
    /// Download from the url to the path, unpacking as the type says.
    Download(String, String, DownloadedFileType),
    /// Mark the file at the path executable.
    MakeExecutable(String),
    /// The resolution is over: the command to run, or why there is none.
    Done(Result<String, String>),
}

/// What the caller found when it did what was asked.
pub enum ReleaseEvent {
    Exists(bool),
    Release(Result<Vec<ReleaseAsset>, String>),
    Downloaded(Result<(), String>),
    MadeExecutable(Result<(), String>),
}

pub enum ReleaseActionView {
    CheckExists(Seq<char>),
    FetchRelease(Seq<char>, Seq<char>),
    Download(Seq<char>, Seq<char>, DownloadedFileType),
    MakeExecutable(Seq<char>),
    Done(Result<Seq<char>, Seq<char>>),
}

pub enum ReleaseEventView {
    Exists(bool),
    Release(Result<Seq<(Seq<char>, Seq<char>)>, Seq<char>>),
    Downloaded(Result<(), Seq<char>>),
    MadeExecutable(Result<(), Seq<char>>),
}

impl View for ReleaseAction {
    type V = ReleaseActionView;

    open spec fn view(&self) -> ReleaseActionView {
        match self {
            ReleaseAction::CheckExists(p) => ReleaseActionView::CheckExists(p@),
            ReleaseAction::FetchRelease(r, t) => ReleaseActionView::FetchRelease(r@, t@),
            ReleaseAction::Download(u, p, k) => ReleaseActionView::Download(u@, p@, *k),
            ReleaseAction::MakeExecutable(p) => ReleaseActionView::MakeExecutable(p@),
            ReleaseAction::Done(Ok(p)) => ReleaseActionView::Done(Ok(p@)),
            ReleaseAction::Done(Err(e)) => ReleaseActionView::Done(Err(e@)),
        }
    }
}

pub open spec fn assets_view(assets: Seq<ReleaseAsset>) -> Seq<(Seq<char>, Seq<char>)> {
    assets.map_values(|a: ReleaseAsset| (a.name@, a.download_url@))
}

impl View for ReleaseEvent {
    type V = ReleaseEventView;

    open spec fn view(&self) -> ReleaseEventView {
        match self {
            ReleaseEvent::Exists(b) => ReleaseEventView::Exists(*b),
            ReleaseEvent::Release(Ok(a)) => ReleaseEventView::Release(Ok(assets_view(a@))),
            ReleaseEvent::Release(Err(e)) => ReleaseEventView::Release(Err(e@)),
            ReleaseEvent::Downloaded(Ok(())) => ReleaseEventView::Downloaded(Ok(())),
            ReleaseEvent::Downloaded(Err(e)) => ReleaseEventView::Downloaded(Err(e@)),
            ReleaseEvent::MadeExecutable(Ok(())) => ReleaseEventView::MadeExecutable(Ok(())),
            ReleaseEvent::MadeExecutable(Err(e)) => ReleaseEventView::MadeExecutable(Err(e@)),
        }
    }
}

/// Where a resolution stands.
#[derive(Clone, Copy, Debug, PartialEq, Eq, Structural)]
pub enum ReleaseStage {
    Checking,
    Fetching,
    Downloading,
    Marking,
    Finished,
}

/// The fixed inputs of one resolution.
pub struct ReleaseTarget {
    /// The executable's name, and the command to fall back on.
    pub package: String,
    pub repo: String,
    pub tag: String,
    /// The asset's name for this platform.
    pub package_id: String,
    pub file_type: DownloadedFileType,
    /// The directory that relative download paths start from.
    pub current_dir: String,
}

/// The directory that the release is downloaded to.
pub open spec fn download_path(t: ReleaseTarget) -> Seq<char> {
    version_dir(t.package_id@, t.tag@)
}

/// The command that a resolution gives, whether it downloads the release or
/// finds it on disk: the downloaded file itself, or the executable inside
/// the unpacked archive, under the current directory.
pub open spec fn release_path(t: ReleaseTarget) -> Seq<char> {
    if t.file_type == DownloadedFileType::Uncompressed {
        download_path(t)
    } else {
        t.current_dir@ + "/"@ + download_path(t) + "/"@ + t.package@
    }
}

/// Position of the first asset named `name`, or the number of assets.
pub open spec fn asset_position(assets: Seq<(Seq<char>, Seq<char>)>, name: Seq<char>) -> int
    decreases assets.len(),
{
    if assets.len() == 0 {
        0
    } else if assets[0].0 == name {
        0
    } else {
        1 + asset_position(assets.drop_first(), name)
    }
}

/// The first action of a resolution: look whether it is already on disk.
pub open spec fn release_start(t: ReleaseTarget) -> (ReleaseStage, ReleaseActionView) {
    (ReleaseStage::Checking, ReleaseActionView::CheckExists(download_path(t)))
}

/// The next stage and action, after `event` in `stage`.
pub open spec fn release_step(t: ReleaseTarget, stage: ReleaseStage, event: ReleaseEventView) -> (
    ReleaseStage,
    ReleaseActionView,
) {
    match (stage, event) {
        (ReleaseStage::Checking, ReleaseEventView::Exists(true)) => (
            ReleaseStage::Finished,
            ReleaseActionView::Done(Ok(release_path(t))),
        ),
        (ReleaseStage::Checking, ReleaseEventView::Exists(false)) => (
            ReleaseStage::Fetching,
            ReleaseActionView::FetchRelease(t.repo@, t.tag@),
        ),
        (ReleaseStage::Fetching, ReleaseEventView::Release(Err(_))) => (
            ReleaseStage::Finished,
            ReleaseActionView::Done(Ok(t.package@)),
        ),
        (ReleaseStage::Fetching, ReleaseEventView::Release(Ok(assets))) => {
            let k = asset_position(assets, t.package_id@);
            if k < assets.len() {
                (
                    ReleaseStage::Downloading,
                    ReleaseActionView::Download(assets[k].1, download_path(t), t.file_type),
                )
            } else {
                (ReleaseStage::Finished, ReleaseActionView::Done(Ok(t.package@)))
            }
        },
        (ReleaseStage::Downloading, ReleaseEventView::Downloaded(Err(e))) => (
            ReleaseStage::Finished,
            ReleaseActionView::Done(Err("Failed to download "@ + t.package@ + ": "@ + e)),
        ),
        (ReleaseStage::Downloading, ReleaseEventView::Downloaded(Ok(()))) => {
            if t.file_type == DownloadedFileType::Uncompressed || t.file_type
                == DownloadedFileType::GzipTar {
                (ReleaseStage::Marking, ReleaseActionView::MakeExecutable(release_path(t)))
            } else {
                (ReleaseStage::Finished, ReleaseActionView::Done(Err("Not implemented"@)))
            }
        },
        (ReleaseStage::Marking, ReleaseEventView::MadeExecutable(Ok(()))) => (
            ReleaseStage::Finished,
            ReleaseActionView::Done(Ok(release_path(t))),
        ),
        (ReleaseStage::Marking, ReleaseEventView::MadeExecutable(Err(e))) => (
            ReleaseStage::Finished,
            ReleaseActionView::Done(Err("Failed to make "@ + t.package@ + " executable: "@ + e)),
        ),
        _ => (
            ReleaseStage::Finished,
            ReleaseActionView::Done(Err("Unexpected event while resolving "@ + t.package@)),
        ),
    }
}

/// A resolution in progress.
pub struct GithubRelease {
    pub target: ReleaseTarget,
    pub stage: ReleaseStage,
}

/// Starts resolving `package` from the release `tag` of `repo`, whose asset
/// for this platform is named `package_id`. Returns the resolution and the
/// first thing it asks for.
pub fn ensure_github_release(
    package: &str,
    repo: &str,
    tag: &str,
    package_id: String,
    download_file_type: DownloadedFileType,
    current_dir: String,
) -> (r: (GithubRelease, ReleaseAction))
    ensures
        r.0.target.package@ == package@,
        r.0.target.repo@ == repo@,
        r.0.target.tag@ == tag@,
        r.0.target.package_id == package_id,
        r.0.target.file_type == download_file_type,
        r.0.target.current_dir == current_dir,
        (r.0.stage, r.1@) == release_start(r.0.target),
{
    let download_path = get_version_dir(package_id.clone(), owned(tag));
    let target = ReleaseTarget {
        package: owned(package),
        repo: owned(repo),
        tag: owned(tag),
        package_id,
        file_type: download_file_type,
        current_dir,
    };
    let action = ReleaseAction::CheckExists(download_path.clone());
    (GithubRelease { target, stage: ReleaseStage::Checking }, action)
}

/// Position of the first asset named `name`.
fn find_asset(assets: &Vec<ReleaseAsset>, name: &str) -> (r: usize)
    ensures
        r as int == asset_position(assets_view(assets@), name@),
        r <= assets@.len(),
{
    let ghost all = assets_view(assets@);
    let mut i: usize = 0;
    assert(all.skip(0) =~= all);
    while i < assets.len()
        invariant
            all == assets_view(assets@),
            i <= assets@.len(),
            asset_position(all, name@) == i + asset_position(all.skip(i as int), name@),
        decreases assets@.len() - i,
    {
        if str_eq(assets[i].name.as_str(), name) {
            return i;
        }
        assert(all.skip(i as int).drop_first() =~= all.skip(i + 1));
        i = i + 1;
    }
    i
}

impl GithubRelease {
    fn download_path(&self) -> (r: String)
        ensures
            r@ == download_path(self.target),
    {
        get_version_dir(self.target.package_id.clone(), self.target.tag.clone())
    }

    fn unpacked(&self) -> (r: String)
        ensures
            r@ == release_path(self.target),
    {
        match self.target.file_type {
            DownloadedFileType::Uncompressed => self.download_path(),
            _ => {
                let p = concat(self.target.current_dir.as_str(), "/");
                let p = concat(p.as_str(), self.download_path().as_str());
                let p = concat(p.as_str(), "/");
                concat(p.as_str(), self.target.package.as_str())
            },
        }
    }

    /// Takes in what the caller found and says what to do next.
    pub fn step(&mut self, event: ReleaseEvent) -> (r: ReleaseAction)
        ensures
            final(self).target == old(self).target,
            (final(self).stage, r@) == release_step(old(self).target, old(self).stage, event@),
    {
        let package = self.target.package.as_str();
        match (self.stage, event) {
            (ReleaseStage::Checking, ReleaseEvent::Exists(true)) => {
                self.stage = ReleaseStage::Finished;
                ReleaseAction::Done(Ok(self.unpacked()))
            },
            (ReleaseStage::Checking, ReleaseEvent::Exists(false)) => {
                self.stage = ReleaseStage::Fetching;
                ReleaseAction::FetchRelease(self.target.repo.clone(), self.target.tag.clone())
            },
            (ReleaseStage::Fetching, ReleaseEvent::Release(Err(_))) => {
                self.stage = ReleaseStage::Finished;
                ReleaseAction::Done(Ok(self.target.package.clone()))
            },
            (ReleaseStage::Fetching, ReleaseEvent::Release(Ok(assets))) => {
                let k = find_asset(&assets, self.target.package_id.as_str());
                if k < assets.len() {
                    self.stage = ReleaseStage::Downloading;
                    ReleaseAction::Download(
                        assets[k].download_url.clone(),
                        self.download_path(),
                        self.target.file_type,
                    )
                } else {
                    self.stage = ReleaseStage::Finished;
                    ReleaseAction::Done(Ok(self.target.package.clone()))
                }
            },
            (ReleaseStage::Downloading, ReleaseEvent::Downloaded(Err(e))) => {
                self.stage = ReleaseStage::Finished;
                let m = concat("Failed to download ", package);
                let m = concat(m.as_str(), ": ");
                ReleaseAction::Done(Err(concat(m.as_str(), e.as_str())))
            },
            (ReleaseStage::Downloading, ReleaseEvent::Downloaded(Ok(()))) => {
                match self.target.file_type {
                    DownloadedFileType::Uncompressed | DownloadedFileType::GzipTar => {
                        self.stage = ReleaseStage::Marking;
                        ReleaseAction::MakeExecutable(self.unpacked())
                    },
                    _ => {
                        self.stage = ReleaseStage::Finished;
                        ReleaseAction::Done(Err(owned("Not implemented")))
                    },
                }
            },
            (ReleaseStage::Marking, ReleaseEvent::MadeExecutable(Ok(()))) => {
                self.stage = ReleaseStage::Finished;
                ReleaseAction::Done(Ok(self.unpacked()))
            },
            (ReleaseStage::Marking, ReleaseEvent::MadeExecutable(Err(e))) => {
                self.stage = ReleaseStage::Finished;
                let m = concat("Failed to make ", package);
                let m = concat(m.as_str(), " executable: ");
                ReleaseAction::Done(Err(concat(m.as_str(), e.as_str())))
            },
            _ => {
                self.stage = ReleaseStage::Finished;
                ReleaseAction::Done(Err(concat("Unexpected event while resolving ", package)))
            },
        }
    }
}

/// Resolving a release that is already on disk asks for no request and no
/// download, and it returns the very path that the run which downloaded and
/// unpacked it returned.
pub proof fn lemma_release_reuses_download(
    t: ReleaseTarget,
    assets: Seq<(Seq<char>, Seq<char>)>,
)
    requires
        asset_position(assets, t.package_id@) < assets.len(),
    ensures
        ({
            let (s0, a0) = release_start(t);
            let (s1, a1) = release_step(t, s0, ReleaseEventView::Exists(true));
            &&& a0 == ReleaseActionView::CheckExists(download_path(t))
            &&& s1 == ReleaseStage::Finished
            &&& a1 == ReleaseActionView::Done(Ok(release_path(t)))
        }),
        t.file_type == DownloadedFileType::Uncompressed || t.file_type
            == DownloadedFileType::GzipTar ==> ({
            let (s0, _) = release_start(t);
            let (s1, _) = release_step(t, s0, ReleaseEventView::Exists(false));
            let (s2, _) = release_step(t, s1, ReleaseEventView::Release(Ok(assets)));
            let (s3, _) = release_step(t, s2, ReleaseEventView::Downloaded(Ok(())));
            let (_, a4) = release_step(t, s3, ReleaseEventView::MadeExecutable(Ok(())));
            a4 == ReleaseActionView::Done(Ok(release_path(t)))
        }),
{
}

} // verus!
