//! The documents the installer reads: the top-level version list, per-version
//! manifests, asset indexes and runtime manifests.

pub mod assets;
pub mod java;
pub mod main;
pub mod version;
