//! Installation core of a game launcher: the version manifest model, platform
//! rule evaluation, manifest inheritance, the on-disk layout, and the decisions
//! of each installation stage (what to fetch, where to put it, and when a local
//! copy is already current).

pub mod text;
pub mod error;
pub mod manifest;
pub mod rules;
pub mod path;
pub mod install;
pub mod pipeline;
pub mod maven;
