//! The retrieval run as a state machine. The stages are strictly
//! sequential — client object, declared libraries, asset index, asset
//! objects — and each step here hands the surrounding application the
//! tasks of the next stage together with the progress event that opens
//! it. Any failure moves the run to its failed state; the error is
//! surfaced unchanged.

use vstd::prelude::*;
use vstd::string::StringExecFns;
use crate::assets::asset_task;
use crate::assets::index_hashes;
use crate::model::DownloadProgress;
use crate::model::DownloadTask;
use crate::model::FetchError;
use crate::model::Platform;
use crate::model::VersionDetails;
use crate::model::VersionManifest;
use crate::progress::counted_label;
use crate::progress::emit_gate;
use crate::progress::stage_pct;
use crate::resolver::collect_spec;

verus! {

/// Where a retrieval run stands.
#[derive(PartialEq, Eq, Structural, Clone, Copy, Debug)]
pub enum RetrievalState {
    /// Looking the requested version up in the manifest.
    ResolvingManifest,
    /// Fetching the single client object.
    FetchingClient,
    /// Fetching the applicable libraries.
    FetchingLibraries,
    /// Fetching and parsing the asset index document.
    FetchingAssetIndex,
    /// Fetching the content-addressed asset objects.
    FetchingAssetObjects,
    /// Everything succeeded.
    Done,
    /// A stage failed; the run is over.
    Failed,
}

/// One retrieval run: its state, where it writes, what platform it
/// resolves libraries for, and the version metadata once resolved.
pub struct Retrieval {
    pub state: RetrievalState,
    pub root: String,
    pub platform: Platform,
    pub version_id: String,
    pub details: Option<VersionDetails>,
}

impl Retrieval {
    /// Open a run. The returned event announces the manifest lookup at
    /// the bottom of the unified scale.
    pub fn begin(root: String, platform: Platform, version_id: String) -> (r: (
        Retrieval,
        DownloadProgress,
    ))
        ensures
            r.0.state is ResolvingManifest,
            r.0.root == root,
            r.0.platform == platform,
            r.0.version_id == version_id,
            r.0.details is None,
            r.1.stage@ == "Fetching version info..."@,
            r.1.current == 0,
            r.1.total == 100,
            r.1.percentage == 0,
    {
        let ev = crate::progress::plain_event("Fetching version info...", 0, 0);
        (
            Retrieval {
                state: RetrievalState::ResolvingManifest,
                root,
                platform,
                version_id,
                details: None,
            },
            ev,
        )
    }

    /// Look the requested version up: its detail URL if the manifest
    /// lists the id (first entry wins), the not-found error — and the
    /// failed state — if it does not.
    pub fn on_manifest(&mut self, manifest: &VersionManifest) -> (r: Result<String, FetchError>)
        requires
            old(self).state is ResolvingManifest,
        ensures
            final(self).root == old(self).root,
            final(self).platform == old(self).platform,
            final(self).version_id == old(self).version_id,
            final(self).details == old(self).details,
            r matches Ok(u) ==> final(self).state is ResolvingManifest && exists|i: int|
                0 <= i < manifest.versions@.len() && (#[trigger] manifest.versions@[i].id)@ == old(
                    self,
                ).version_id@ && u@ == manifest.versions@[i].url@ && forall|j: int|
                    0 <= j < i ==> manifest.versions@[j].id@ != old(self).version_id@,
            r matches Err(e) ==> final(self).state is Failed && e is NotFound && forall|i: int|
                0 <= i < manifest.versions@.len() ==> (#[trigger] manifest.versions@[i].id)@ != old(
                    self,
                ).version_id@,
    {
        let n = manifest.versions.len();
        let mut i: usize = 0;
        while i < n
            invariant
                i <= n,
                n == manifest.versions@.len(),
                forall|j: int|
                    0 <= j < i ==> (#[trigger] manifest.versions@[j].id)@ != self.version_id@,
                self == old(self),
                self.state is ResolvingManifest,
            decreases n - i,
        {
            if crate::paths::str_eq(
                manifest.versions[i].id.as_str(),
                self.version_id.as_str(),
            ) {
                let u = manifest.versions[i].url.clone();
                proof {
                    let vi = i as int;
                    assert(0 <= vi < manifest.versions@.len());
                    assert((manifest.versions@[vi].id)@ == old(self).version_id@);
                    assert(u@ == manifest.versions@[vi].url@);
                    assert(forall|j: int|
                        0 <= j < vi ==> manifest.versions@[j].id@ != old(self).version_id@);
                }
                return Ok(u);
            }
            i += 1;
        }
        self.state = RetrievalState::Failed;
        Err(FetchError::NotFound)
    }

    /// Take the resolved version metadata in and move to the client
    /// stage: the client task (none if the version declares no
    /// downloads), the path the metadata document is persisted at, and
    /// the event opening the stage.
    pub fn on_details(&mut self, details: VersionDetails) -> (r: (
        Option<DownloadTask>,
        String,
        DownloadProgress,
    ))
        requires
            old(self).state is ResolvingManifest,
        ensures
            final(self).state is FetchingClient,
            final(self).root == old(self).root,
            final(self).platform == old(self).platform,
            final(self).version_id == old(self).version_id,
            final(self).details == Some(details),
            match details.downloads {
                Some(dl) => r.0 matches Some(t) && t@.url == dl.client.url@ && t@.sha1
                    == dl.client.sha1@ && t@.path == old(self).root@ + "/versions/"@ + details.id@
                    + "/"@ + details.id@ + ".jar"@,
                None => r.0 is None,
            },
            r.1@ == old(self).root@ + "/versions/"@ + details.id@ + "/"@ + details.id@ + ".json"@,
            r.2.stage@ == "Downloading client JAR..."@,
            r.2.current == 5,
            r.2.total == 100,
            r.2.percentage == 5,
    {
        let task: Option<DownloadTask> = match &details.downloads {
            Some(dl) => Some(
                DownloadTask {
                    url: dl.client.url.clone(),
                    path: crate::paths::client_jar_path(
                        self.root.as_str(),
                        details.id.as_str(),
                    ),
                    sha1: dl.client.sha1.clone(),
                },
            ),
            None => None,
        };
        let json_path = crate::paths::version_json_path(self.root.as_str(), details.id.as_str());
        let ev = crate::progress::plain_event("Downloading client JAR...", 5, 5);
        self.details = Some(details);
        self.state = RetrievalState::FetchingClient;
        (task, json_path, ev)
    }

    /// The client object is on disk: expand the applicable libraries
    /// into tasks and open the library stage.
    pub fn on_client_done(&mut self) -> (r: (Vec<DownloadTask>, DownloadProgress))
        requires
            old(self).state is FetchingClient,
            old(self).details is Some,
        ensures
            final(self).state is FetchingLibraries,
            final(self).root == old(self).root,
            final(self).platform == old(self).platform,
            final(self).version_id == old(self).version_id,
            final(self).details == old(self).details,
            r.0@.map_values(|t: DownloadTask| t@) == collect_spec(
                old(self).details->Some_0.libraries@,
                old(self).platform,
                old(self).root@ + "/libraries"@,
            ),
            r.1.stage@ == "Downloading libraries..."@,
            r.1.current == 10,
            r.1.total == 100,
            r.1.percentage == 10,
    {
        let libraries_dir = crate::paths::get_libraries_dir(self.root.as_str());
        let tasks = match &self.details {
            Some(d) => crate::resolver::collect_library_downloads(
                d,
                &self.platform,
                libraries_dir.as_str(),
            ),
            None => vstd::pervasive::unreached(),
        };
        let ev = crate::progress::plain_event("Downloading libraries...", 10, 10);
        self.state = RetrievalState::FetchingLibraries;
        (tasks, ev)
    }

    /// The libraries are on disk: hand out the asset index task (none if
    /// the version declares no index) and open the asset stage.
    pub fn on_libraries_done(&mut self) -> (r: (Option<DownloadTask>, DownloadProgress))
        requires
            old(self).state is FetchingLibraries,
            old(self).details is Some,
        ensures
            final(self).state is FetchingAssetIndex,
            final(self).root == old(self).root,
            final(self).platform == old(self).platform,
            final(self).version_id == old(self).version_id,
            final(self).details == old(self).details,
            match old(self).details->Some_0.asset_index {
                Some(ai) => r.0 matches Some(t) && t@.url == ai.url@ && t@.sha1 == ai.sha1@
                    && t@.path == old(self).root@ + "/assets/indexes/"@ + ai.id@ + ".json"@,
                None => r.0 is None,
            },
            r.1.stage@ == "Downloading assets..."@,
            r.1.current == 35,
            r.1.total == 100,
            r.1.percentage == 35,
    {
        let task: Option<DownloadTask> = match &self.details {
            Some(d) => match &d.asset_index {
                Some(ai) => Some(
                    DownloadTask {
                        url: ai.url.clone(),
                        path: crate::paths::asset_index_path(self.root.as_str(), ai.id.as_str()),
                        sha1: ai.sha1.clone(),
                    },
                ),
                None => None,
            },
            None => vstd::pervasive::unreached(),
        };
        let ev = crate::progress::plain_event("Downloading assets...", 35, 35);
        self.state = RetrievalState::FetchingAssetIndex;
        (task, ev)
    }

    /// The asset index document is on disk: parse it and expand its
    /// object map into one content-addressed task per entry. A document
    /// the grammar refuses — or a declared hash too short for its
    /// storage prefix — fails the run with a parse error.
    pub fn on_asset_index(&mut self, doc: &str) -> (r: Result<Vec<DownloadTask>, FetchError>)
        requires
            old(self).state is FetchingAssetIndex,
        ensures
            final(self).root == old(self).root,
            final(self).platform == old(self).platform,
            final(self).version_id == old(self).version_id,
            final(self).details == old(self).details,
            r matches Ok(ts) ==> (index_hashes(doc@) matches Some(hs)
                && final(self).state is FetchingAssetObjects && ts@.len() == hs.len() && (forall|
                i: int,
            |
                0 <= i < hs.len() ==> (#[trigger] ts@[i])@ == asset_task(
                    hs[i],
                    old(self).root@ + "/assets"@,
                )) && (forall|i: int| 0 <= i < hs.len() ==> (#[trigger] hs[i]).len() >= 2)),
            r matches Err(e) ==> final(self).state is Failed && e is Parse && (index_hashes(doc@)
                is None || exists|i: int|
                0 <= i < index_hashes(doc@)->Some_0.len() && (#[trigger] index_hashes(
                    doc@,
                )->Some_0[i]).len() < 2),
    {
        let assets_dir = crate::paths::get_assets_dir(self.root.as_str());
        match crate::assets::parse_asset_index(doc) {
            Err(_) => {
                self.state = RetrievalState::Failed;
                Err(FetchError::Parse)
            },
            Ok(hashes) => {
                match crate::assets::expand_asset_tasks(&hashes, assets_dir.as_str()) {
                    Err(_) => {
                        proof {
                            if forall|i: int|
                                0 <= i < hashes@.len() ==> (#[trigger] hashes@[i])@.len() >= 2 {
                                assert(false);
                            }
                            let wi = choose|i: int|
                                0 <= i < hashes@.len() && (#[trigger] hashes@[i])@.len() < 2;
                            assert(index_hashes(doc@)->Some_0[wi] == hashes@[wi]@);
                        }
                        self.state = RetrievalState::Failed;
                        Err(FetchError::Parse)
                    },
                    Ok(tasks) => {
                        self.state = RetrievalState::FetchingAssetObjects;
                        Ok(tasks)
                    },
                }
            },
        }
    }

    /// A version with no asset index skips the asset stage outright.
    pub fn skip_asset_stage(&mut self)
        requires
            old(self).state is FetchingAssetIndex,
            old(self).details matches Some(d) && d.asset_index is None,
        ensures
            final(self).state is FetchingAssetObjects,
            final(self).root == old(self).root,
            final(self).platform == old(self).platform,
            final(self).version_id == old(self).version_id,
            final(self).details == old(self).details,
    {
        self.state = RetrievalState::FetchingAssetObjects;
    }

    /// Every asset object is on disk: the run is done. Returns the
    /// resolved version metadata and the closing event at the top of the
    /// scale.
    pub fn finish(&mut self) -> (r: (VersionDetails, DownloadProgress))
        requires
            old(self).state is FetchingAssetObjects,
            old(self).details is Some,
        ensures
            final(self).state is Done,
            final(self).details is None,
            r.0 == old(self).details->Some_0,
            r.1.stage@ == "Complete!"@,
            r.1.current == 100,
            r.1.total == 100,
            r.1.percentage == 100,
    {
        let d = match self.details.take() {
            Some(d) => d,
            None => vstd::pervasive::unreached(),
        };
        self.state = RetrievalState::Done;
        (d, crate::progress::plain_event("Complete!", 100, 100))
    }

    /// Any stage may fail; the run moves to its failed state and the
    /// error is surfaced unchanged.
    pub fn fail(&mut self, err: FetchError) -> (r: FetchError)
        ensures
            final(self).state is Failed,
            final(self).root == old(self).root,
            final(self).platform == old(self).platform,
            final(self).version_id == old(self).version_id,
            final(self).details == old(self).details,
            r == err,
    {
        self.state = RetrievalState::Failed;
        err
    }
}

/// The event, if any, after the `done`-th of `total` library fetches:
/// the library stage spans 10 to 35 percent and reports every 5th
/// completion, and always the last.
pub fn library_stage_progress(done: u32, total: u32) -> (r: Option<DownloadProgress>)
    requires
        0 < total,
        done <= total,
    ensures
        r is Some == emit_gate(done as int, total as int, 5),
        r matches Some(e) ==> {
            &&& e.stage@ == counted_label("Downloading libraries"@, done as nat, total as nat)
            &&& e.current == done
            &&& e.total == total
            &&& e.percentage == stage_pct(10, 25, done as int, total as int)
            &&& 10 <= e.percentage <= 35
            &&& (done == total ==> e.percentage == 35)
        },
{
    crate::scheduler::batch_progress("Downloading libraries", done, total, 10, 25, 5)
}

/// The event opening the library stage, at its 10 percent base.
pub fn library_stage_start(total: u32) -> (r: DownloadProgress)
    ensures
        r.stage@ == counted_label("Downloading libraries"@, 0, total as nat),
        r.current == 0,
        r.total == total,
        r.percentage == 10,
{
    crate::scheduler::batch_start_event("Downloading libraries", total, 10)
}

/// The event, if any, after the `done`-th of `total` asset fetches: the
/// asset stage spans 35 to 100 percent and reports every 100th
/// completion, and always the last.
pub fn asset_stage_progress(done: u32, total: u32) -> (r: Option<DownloadProgress>)
    requires
        0 < total,
        done <= total,
    ensures
        r is Some == emit_gate(done as int, total as int, 100),
        r matches Some(e) ==> {
            &&& e.stage@ == counted_label("Downloading assets"@, done as nat, total as nat)
            &&& e.current == done
            &&& e.total == total
            &&& e.percentage == stage_pct(35, 65, done as int, total as int)
            &&& 35 <= e.percentage <= 100
            &&& (done == total ==> e.percentage == 100)
        },
{
    crate::scheduler::batch_progress("Downloading assets", done, total, 35, 65, 100)
}

/// The event opening the asset stage, at its 35 percent base.
pub fn asset_stage_start(total: u32) -> (r: DownloadProgress)
    ensures
        r.stage@ == counted_label("Downloading assets"@, 0, total as nat),
        r.current == 0,
        r.total == total,
        r.percentage == 35,
{
    crate::scheduler::batch_start_event("Downloading assets", total, 35)
}

} // verus!
