//! The failures that stop an installation.

use vstd::prelude::*;

verus! {

/// Why an installation stage failed.
#[derive(Clone, Debug, PartialEq, Eq)]
pub enum InstallError {
    /// A filesystem operation failed.
    Io(String),
    /// A transfer failed.
    Network(String),
    /// A document is malformed.
    Parse(String),
    /// A document lacks something the installation needs; the payload names it.
    ManifestIncomplete(String),
    /// The platform cannot do what a manifest asks (a symbolic link).
    PlatformUnsupported(String),
    /// A fresh download does not have the declared length.
    IntegrityMismatch { expected: u64, actual: u64 },
    /// The inheritance chain of a manifest returns to this id.
    InheritanceCycle(String),
}

} // verus!
