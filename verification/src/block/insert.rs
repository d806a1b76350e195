//! Block instance types.

use vstd::prelude::*;
use super::definition::BlockId;

verus! {

/// Entity component: this entity is an instance of a block definition.
///
/// The block's geometry is stored in the block table and referenced by
/// `definition`; at render time it is mapped from local definition space to
/// world space by `transform` (a transform of the geometry layer).
#[derive(Debug, Clone, Copy)]
pub struct BlockRef<T> {
    /// ID of the block definition this entity instantiates.
    pub definition: BlockId,
    /// Local-to-world transform applied to the definition's geometry.
    pub transform: T,
}

/// Builder/reserved type for block insertion operations.
#[derive(Debug, Clone, Copy)]
pub struct BlockInsert;

impl Default for BlockInsert {
    fn default() -> (b: Self) {
        BlockInsert
    }
}

} // verus!
