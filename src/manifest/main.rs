//! The top-level list of available versions.

use vstd::prelude::*;

use crate::manifest::version::Timestamp;
use crate::text::{copy_str, str_eq};

verus! {

/// The list of available versions.
#[derive(Clone, Debug, PartialEq, Eq)]
pub struct Main {
    pub latest: Latest,
    pub versions: Vec<Version>,
}

/// The newest release and snapshot ids.
#[derive(Clone, Debug, PartialEq, Eq)]
pub struct Latest {
    pub release: String,
    pub snapshot: String,
}

/// An entry of the version list: where a version's manifest is found.
#[derive(Clone, Debug, PartialEq, Eq)]
pub struct Version {
    pub id: String,
    pub _type: VersionType,
    pub url: String,
    pub time: Timestamp,
    pub release_time: Timestamp,
    pub sha1: String,
    pub compliance_level: u8,
}

/// The summary of a version that a version picker shows.
#[derive(Clone, Debug, PartialEq, Eq)]
pub struct MinVersion {
    pub id: String,
    pub _type: VersionType,
    pub release_time: Timestamp,
}

/// The kind of a listed version.
#[derive(Clone, Copy, Debug, PartialEq, Eq, Structural)]
pub enum VersionType {
    Release,
    Snapshot,
    OldBeta,
    OldAlpha,
}

/// The name of a version kind in the version list.
pub open spec fn kind_name(t: VersionType) -> Seq<char> {
    match t {
        VersionType::Release => "release"@,
        VersionType::Snapshot => "snapshot"@,
        VersionType::OldBeta => "old_beta"@,
        VersionType::OldAlpha => "old_alpha"@,
    }
}

/// Whether `s` names a version kind.
pub open spec fn is_kind_name(s: Seq<char>) -> bool {
    exists|t: VersionType| kind_name(t) == s
}

impl VersionType {
    /// The kind that `string` names.
    pub fn from_str(string: String) -> (r: VersionType)
        requires
            is_kind_name(string@),
        ensures
            kind_name(r) == string@,
    {
        if str_eq(string.as_str(), "release") {
            VersionType::Release
        } else if str_eq(string.as_str(), "snapshot") {
            VersionType::Snapshot
        } else if str_eq(string.as_str(), "old_beta") {
            VersionType::OldBeta
        } else {
            proof {
                let t = choose|t: VersionType| kind_name(t) == string@;
                assert(t == VersionType::OldAlpha);
            }
            VersionType::OldAlpha
        }
    }

    /// The name of this kind in the version list.
    pub fn to_string(&self) -> (r: String)
        ensures
            r@ == kind_name(*self),
    {
        match self {
            VersionType::Release => String::from_str("release"),
            VersionType::Snapshot => String::from_str("snapshot"),
            VersionType::OldBeta => String::from_str("old_beta"),
            VersionType::OldAlpha => String::from_str("old_alpha"),
        }
    }
}

impl Version {
    /// The summary of this version.
    pub fn to_min_version(&self) -> (r: MinVersion)
        ensures
            r.id@ == self.id@,
            r._type == self._type,
            r.release_time == self.release_time,
    {
        MinVersion { id: copy_str(&self.id), _type: self._type, release_time: self.release_time }
    }
}

} // verus!
