//! Data model of one retrieval run: tasks, version metadata, libraries,
//! progress events and the error taxonomy.

use vstd::prelude::*;

verus! {

/// One remote object to materialize: where it comes from, where it goes,
/// and the hex digest it must match (empty string: no published digest,
/// presence of the destination alone satisfies the task).
pub struct DownloadTask {
    pub url: String,
    pub path: String,
    pub sha1: String,
}

/// The mathematical content of a task: its three strings as character
/// sequences.
pub struct TaskView {
    pub url: Seq<char>,
    pub path: Seq<char>,
    pub sha1: Seq<char>,
}

impl View for DownloadTask {
    type V = TaskView;

    open spec fn view(&self) -> TaskView {
        TaskView { url: self.url@, path: self.path@, sha1: self.sha1@ }
    }
}

/// Progress notification handed to an external sink; `percentage` is on the
/// unified 0-100 scale across all stages.
pub struct DownloadProgress {
    pub stage: String,
    pub current: u32,
    pub total: u32,
    pub percentage: u32,
}

/// Why a retrieval run failed.
#[derive(Debug)]
pub enum FetchError {
    /// The requested version id is absent from the manifest.
    NotFound,
    /// A freshly downloaded object did not match its expected digest.
    Integrity,
    /// A network or file-system operation failed; carries the reported text.
    Transport(String),
    /// A fetched document could not be parsed.
    Parse,
}

/// A concrete artifact of a library: its repository-relative path, digest
/// and source URL.
pub struct Artifact {
    pub path: String,
    pub sha1: String,
    pub url: String,
}

/// One applicability rule of a library: `allow` is the verdict the rule
/// imposes when it matches; absent fields match any platform.
pub struct OsRule {
    pub allow: bool,
    pub os_name: Option<String>,
    pub os_arch: Option<String>,
}

/// Structured download descriptors of a library: the generic artifact and
/// per-classifier native artifacts.
pub struct LibraryDownloads {
    pub artifact: Option<Artifact>,
    pub classifiers: Vec<(String, Artifact)>,
}

/// A declared library dependency of a version.
pub struct Library {
    /// Maven-style coordinate, `group:artifact:version[:classifier]`.
    pub name: String,
    pub downloads: Option<LibraryDownloads>,
    /// Map from OS name to native-classifier key (may contain `${arch}`).
    pub natives: Option<Vec<(String, String)>>,
    /// Legacy custom base URL, for libraries without structured descriptors.
    pub url: Option<String>,
    pub rules: Option<Vec<OsRule>>,
}

/// URL and digest of one downloadable object of a version.
pub struct DownloadInfo {
    pub url: String,
    pub sha1: String,
}

/// The download descriptors of a version (only the client object is used).
pub struct VersionDownloads {
    pub client: DownloadInfo,
}

/// Descriptor of the asset index document of a version.
pub struct AssetIndexInfo {
    pub id: String,
    pub url: String,
    pub sha1: String,
}

/// Resolved metadata of one installable version.
pub struct VersionDetails {
    pub id: String,
    pub downloads: Option<VersionDownloads>,
    pub libraries: Vec<Library>,
    pub asset_index: Option<AssetIndexInfo>,
}

/// One entry of the version manifest.
pub struct VersionEntry {
    pub id: String,
    pub url: String,
}

/// The version manifest: every published version with its detail URL.
pub struct VersionManifest {
    pub versions: Vec<VersionEntry>,
}

/// The platform a retrieval runs on: OS name (`windows`, `osx`, `linux`)
/// and target architecture name (`x86_64`, `x86`, ...).
pub struct Platform {
    pub os_name: String,
    pub arch: String,
}

/// A log line handed to the external log sink.
pub struct LogPayload {
    pub level: String,
    pub message: String,
    pub timestamp: String,
}

} // verus!
