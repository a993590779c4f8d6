//! The runtime manifests: the index of available runtime builds, and the file
//! list of one build.

use vstd::prelude::*;

verus! {

/// The runtime builds available, by platform key, then by component name,
/// most preferred build first.
#[derive(Clone, Debug, PartialEq, Eq)]
pub struct RuntimeIndex {
    pub platforms: Vec<(String, Vec<(String, Vec<RuntimeBuild>)>)>,
}

/// A runtime build: its version name and where its file list is found.
#[derive(Clone, Debug, PartialEq, Eq)]
pub struct RuntimeBuild {
    pub version_name: String,
    pub manifest_url: String,
}

/// The files of a runtime build, by relative path, in document order.
#[derive(Clone, Debug, PartialEq, Eq)]
pub struct RuntimeFiles {
    pub files: Vec<(String, RuntimeFile)>,
}

/// One entry of a runtime build: a `directory`, a `file` or a `link`.
#[derive(Clone, Debug, PartialEq, Eq)]
pub struct RuntimeFile {
    pub element_type: String,
    pub executable: Option<bool>,
    pub downloads: Option<RuntimeDownload>,
    /// For a link: its target, relative to the link.
    pub target: Option<String>,
}

/// Where a runtime file's raw bytes are found, and their length.
#[derive(Clone, Debug, PartialEq, Eq)]
pub struct RuntimeDownload {
    pub url: String,
    pub size: u64,
}

} // verus!
