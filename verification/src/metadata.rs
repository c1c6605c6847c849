//! Asset metadata, as the surrounding service reads it from the ledger's
//! token-metadata program. The engine itself evaluates coverage by asset
//! identity; these records are what a richer coverage mapping (an asset with
//! several bundled sub-resources) would consult.

use vstd::prelude::*;
use crate::identity::Identity;

verus! {

/// One creator listed in an asset's metadata.
#[derive(Debug)]
pub struct Creator {
    pub address: Identity,
    pub verified: bool,
    /// The creator's share, in percentages, not basis points.
    pub share: u8,
}

/// The descriptive metadata of an asset.
#[derive(Debug)]
pub struct Data {
    /// The name of the asset.
    pub name: String,
    /// The symbol for the asset.
    pub symbol: String,
    /// URI pointing to a description of the asset.
    pub uri: String,
    /// Royalty basis points that go to creators in secondary sales.
    pub seller_fee_basis_points: u16,
    /// The asset's creators, if any are listed.
    pub creators: Option<Vec<Creator>>,
}

} // verus!
