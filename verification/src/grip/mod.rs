//! Grip system — handles on selected entities and the drag state.

pub mod handle;
pub mod layout;

use vstd::prelude::*;
use handle::GripHandle;

verus! {

/// The grip system: the drag handles of the selected entities and the
/// active grip-drag operation, if any (`D` is the drag state's type).
#[derive(Debug, Clone)]
pub struct GripSystem<P, D> {
    /// All currently visible grip handles (regenerated on selection change).
    pub handles: Vec<GripHandle<P>>,
    /// Active drag operation, if any.
    pub active_drag: Option<D>,
}

impl<P, D> GripSystem<P, D> {
    /// Create a new empty grip system.
    pub fn new() -> (g: Self)
        ensures
            g.handles@ == Seq::<GripHandle<P>>::empty(),
            g.active_drag is None,
    {
        GripSystem { handles: Vec::new(), active_drag: None }
    }

    /// Returns `true` if there are no handles currently generated.
    pub fn is_empty(&self) -> (b: bool)
        ensures
            b == (self.handles@.len() == 0),
    {
        self.handles.len() == 0
    }

    /// Returns the number of handles.
    pub fn len(&self) -> (n: usize)
        ensures
            n == self.handles@.len(),
    {
        self.handles.len()
    }
}

impl<P, D> Default for GripSystem<P, D> {
    fn default() -> (g: Self)
        ensures
            g.handles@ == Seq::<GripHandle<P>>::empty(),
            g.active_drag is None,
    {
        GripSystem::new()
    }
}

} // verus!
