//! Maven repository metadata, as a repository's `maven-metadata.xml` states it.

use vstd::prelude::*;

verus! {

/// The metadata of an artifact.
#[derive(Clone, Debug, PartialEq, Eq)]
pub struct Metadata {
    pub group_id: String,
    pub artifact_id: String,
    pub versioning: Versioning,
}

/// The versions of an artifact.
#[derive(Clone, Debug, PartialEq, Eq)]
pub struct Versioning {
    pub release: String,
    pub last_updated: String,
    pub versions: MavenVersion,
}

/// The list of published versions.
#[derive(Clone, Debug, PartialEq, Eq)]
pub struct MavenVersion {
    pub versions: Vec<String>,
}

} // verus!
