//! An asset index: logical asset names and the content-addressed objects they name.

use vstd::prelude::*;

verus! {

/// An asset index, its entries in document order.
#[derive(Clone, Debug, PartialEq, Eq)]
pub struct Main {
    /// Objects by logical path.
    pub objects: Vec<(String, AssetObject)>,
    /// Whether older game builds also need the assets under their logical paths.
    pub map_to_resources: bool,
}

/// A content-addressed object: its hash and its length in bytes.
#[derive(Clone, Debug, PartialEq, Eq)]
pub struct AssetObject {
    pub hash: String,
    pub size: u64,
}

} // verus!
