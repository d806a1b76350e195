//! Layer error type.

use vstd::prelude::*;

verus! {

/// Errors returned by [`LayerTable`](super::table::LayerTable) operations.
#[derive(Debug, Clone, PartialEq, Eq)]
pub enum LayerError {
    /// The requested layer ID does not exist in the table.
    NotFound { id: u32 },
    /// A layer with the given name already exists.
    DuplicateName { name: String },
    /// The caller attempted to delete the immutable default layer (ID 0).
    CannotDeleteDefault,
    /// The layer still has active references and cannot be deleted.
    HasReferences { count: usize },
    /// The caller attempted to rename the immutable default layer (ID 0).
    CannotRenameDefault,
}

} // verus!
