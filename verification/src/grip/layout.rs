//! Which grips a selected entity shows, and what dragging each one moves.
//!
//! The grips' positions come from the entity's geometry, computed outside
//! the library; the library fixes their kinds, their order and the vertex
//! index each carries, and which part of the entity a dragged grip moves.

use vstd::prelude::*;
use super::handle::GripType;

verus! {

/// The kind of geometry an entity holds, as far as grips are concerned.
#[derive(Debug, Clone, Copy, PartialEq, Eq, Structural)]
pub enum ShapeKind {
    Line,
    Circle,
    Arc,
    /// A polyline with this many vertices.
    Polyline(usize),
}

/// The grips of an entity, in order: their kinds and vertex indices.
///
/// A line has its two endpoints (indices 0 and 1) and its midpoint; a
/// circle its centre and the quadrant points at 0°, 90°, 180° and 270°; an
/// arc its centre, its start and end points (indices 0 and 1) and its
/// midpoint; a polyline one vertex grip per vertex.
pub open spec fn grip_layout(kind: ShapeKind) -> Seq<(GripType, usize)> {
    match kind {
        ShapeKind::Line => seq![(GripType::Endpoint, 0usize), (GripType::Endpoint, 1usize), (GripType::Midpoint, 0usize)],
        ShapeKind::Circle => seq![
            (GripType::Center, 0usize),
            (GripType::Quadrant, 0usize),
            (GripType::Quadrant, 0usize),
            (GripType::Quadrant, 0usize),
            (GripType::Quadrant, 0usize),
        ],
        ShapeKind::Arc => seq![
            (GripType::Center, 0usize),
            (GripType::Endpoint, 0usize),
            (GripType::Endpoint, 1usize),
            (GripType::Midpoint, 0usize),
        ],
        ShapeKind::Polyline(n) => Seq::new(n as nat, |i: int| (GripType::Vertex, i as usize)),
    }
}

/// The grips an entity of the given kind shows, in order.
pub fn grip_slots(kind: ShapeKind) -> (slots: Vec<(GripType, usize)>)
    ensures
        slots@ == grip_layout(kind),
{
    match kind {
        ShapeKind::Line => {
            let v = vec![(GripType::Endpoint, 0usize), (GripType::Endpoint, 1usize), (GripType::Midpoint, 0usize)];
            assert(v@ =~= grip_layout(kind));
            v
        },
        ShapeKind::Circle => {
            let v = vec![
                (GripType::Center, 0usize),
                (GripType::Quadrant, 0usize),
                (GripType::Quadrant, 0usize),
                (GripType::Quadrant, 0usize),
                (GripType::Quadrant, 0usize),
            ];
            assert(v@ =~= grip_layout(kind));
            v
        },
        ShapeKind::Arc => {
            let v = vec![
                (GripType::Center, 0usize),
                (GripType::Endpoint, 0usize),
                (GripType::Endpoint, 1usize),
                (GripType::Midpoint, 0usize),
            ];
            assert(v@ =~= grip_layout(kind));
            v
        },
        ShapeKind::Polyline(n) => {
            let mut v: Vec<(GripType, usize)> = Vec::new();
            let mut i: usize = 0;
            while i < n
                invariant
                    i <= n,
                    v@.len() == i,
                    forall|k: int| 0 <= k < i ==> #[trigger] v@[k] == (GripType::Vertex, k as usize),
                decreases n - i,
            {
                v.push((GripType::Vertex, i));
                i = i + 1;
            }
            assert(v@ =~= grip_layout(kind));
            v
        },
    }
}

/// The part of an entity that a dragged grip moves.
#[derive(Debug, Clone, Copy, PartialEq, Eq, Structural)]
pub enum DragTarget {
    /// The start point of a line.
    LineStart,
    /// The end point of a line.
    LineEnd,
    /// The centre of a circle or an arc.
    Center,
    /// A vertex of a polyline.
    Vertex(usize),
}

/// What dragging a grip of the given kind and vertex index moves on an
/// entity of kind `kind`, if anything.
pub open spec fn drag_target_spec(kind: ShapeKind, grip: GripType, vertex_index: usize) -> Option<DragTarget> {
    match kind {
        ShapeKind::Line => if grip is Endpoint {
            if vertex_index == 0 { Some(DragTarget::LineStart) } else { Some(DragTarget::LineEnd) }
        } else {
            None
        },
        ShapeKind::Circle | ShapeKind::Arc => if grip is Center { Some(DragTarget::Center) } else { None },
        ShapeKind::Polyline(n) => if vertex_index < n { Some(DragTarget::Vertex(vertex_index)) } else { None },
    }
}

/// What dragging a grip moves: a line's endpoint grips move that endpoint,
/// the centre grip of a circle or an arc moves the centre, and any grip of
/// a polyline moves the vertex it carries (when the polyline has it).
/// Other grips move nothing.
pub fn drag_target(kind: ShapeKind, grip: GripType, vertex_index: usize) -> (t: Option<DragTarget>)
    ensures
        t == drag_target_spec(kind, grip, vertex_index),
{
    match kind {
        ShapeKind::Line => match grip {
            GripType::Endpoint => if vertex_index == 0 {
                Some(DragTarget::LineStart)
            } else {
                Some(DragTarget::LineEnd)
            },
            _ => None,
        },
        ShapeKind::Circle | ShapeKind::Arc => match grip {
            GripType::Center => Some(DragTarget::Center),
            _ => None,
        },
        ShapeKind::Polyline(n) => if vertex_index < n {
            Some(DragTarget::Vertex(vertex_index))
        } else {
            None
        },
    }
}

/// A circle and an arc are moved by their centre: their first grip is the
/// centre grip, it is their only centre grip, and dragging a centre grip
/// (whatever index it carries) moves the centre.  A circle's other four
/// grips are its quadrant points.
pub proof fn law_centre_grip_moves_centre(kind: ShapeKind, i: usize)
    requires
        kind is Circle || kind is Arc,
    ensures
        grip_layout(kind).len() >= 1,
        grip_layout(kind)[0] == (GripType::Center, 0usize),
        forall|j: int| 0 < j < grip_layout(kind).len() ==> !((#[trigger] grip_layout(kind)[j]).0 is Center),
        drag_target_spec(kind, GripType::Center, i) == Some(DragTarget::Center),
        drag_target_spec(kind, grip_layout(kind)[0].0, grip_layout(kind)[0].1) == Some(DragTarget::Center),
        kind is Circle ==> grip_layout(kind).len() == 5
            && forall|j: int| 1 <= j < 5 ==> #[trigger] grip_layout(kind)[j] == (GripType::Quadrant, 0usize),
{
}

/// Each grip of a polyline drags its own vertex, and a line's two endpoint
/// grips drag its start and its end.
pub proof fn law_polyline_grips_drag_their_vertex(n: usize, i: int)
    requires
        0 <= i < n,
    ensures
        drag_target_spec(ShapeKind::Polyline(n), grip_layout(ShapeKind::Polyline(n))[i].0,
            grip_layout(ShapeKind::Polyline(n))[i].1) == Some(DragTarget::Vertex(i as usize)),
        drag_target_spec(ShapeKind::Line, grip_layout(ShapeKind::Line)[0].0, grip_layout(ShapeKind::Line)[0].1)
            == Some(DragTarget::LineStart),
        drag_target_spec(ShapeKind::Line, grip_layout(ShapeKind::Line)[1].0, grip_layout(ShapeKind::Line)[1].1)
            == Some(DragTarget::LineEnd),
{
}

} // verus!
