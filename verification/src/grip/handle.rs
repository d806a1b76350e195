//! Grip handle types for direct-manipulation editing.
//!
//! A *grip* is a screen-space hotspot rendered on or near a selected
//! entity's geometry.  Users click and drag grips to modify the underlying
//! entity — moving endpoints, shifting centres, or adjusting individual
//! polyline vertices.

use vstd::prelude::*;
use crate::ecs::EntityId;

verus! {

/// The type of a grip handle, determining its visual appearance and
/// behaviour during drag operations.
#[derive(Debug, Clone, Copy, PartialEq, Eq, Hash, Structural)]
pub enum GripType {
    /// Corner/endpoint grip (square).
    Endpoint,
    /// Midpoint grip (triangle) — non-interactive.
    Midpoint,
    /// Center grip (circle).
    Center,
    /// Quadrant grip (diamond) — non-interactive.
    Quadrant,
    /// Polyline vertex grip (cyan).
    Vertex,
}

impl Default for GripType {
    fn default() -> (g: Self)
        ensures
            g == GripType::Endpoint,
    {
        GripType::Endpoint
    }
}

/// A single grip handle on an entity, used for direct manipulation.
///
/// Each grip carries its type, a world-space position (a point of the
/// geometry layer), the owning entity, and a vertex index (which vertex of a
/// polyline, or which endpoint of a line: 0 = start, 1 = end; 0 for
/// midpoints, centres and quadrants).
#[derive(Debug, Clone, Copy)]
pub struct GripHandle<P> {
    /// The type of this grip handle.
    pub grip_type: GripType,
    /// World-space position of the grip.
    pub position: P,
    /// The entity this grip belongs to.
    pub entity: EntityId,
    /// Index into the entity's vertex list, or the endpoint discriminator.
    pub vertex_index: usize,
}

impl<P> GripHandle<P> {
    /// Create a new grip handle.
    pub fn new(grip_type: GripType, position: P, entity: EntityId, vertex_index: usize) -> (h: Self)
        ensures
            h.grip_type == grip_type,
            h.position == position,
            h.entity == entity,
            h.vertex_index == vertex_index,
    {
        GripHandle { grip_type, position, entity, vertex_index }
    }
}

} // verus!
