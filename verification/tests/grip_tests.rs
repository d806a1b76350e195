use forge::grip::layout::{drag_target, grip_slots, DragTarget, ShapeKind};
use forge::grip::handle::{GripHandle, GripType};
use forge::grip::GripSystem;
use forge::ecs::EntityId;

#[test]
fn test_grip_type_default() {
    assert_eq!(GripType::default(), GripType::Endpoint);
}

#[test]
fn test_grip_type_variants() {
    let variants = [
        GripType::Endpoint,
        GripType::Midpoint,
        GripType::Center,
        GripType::Quadrant,
        GripType::Vertex,
    ];
    let mut unique = std::collections::HashSet::new();
    for v in &variants {
        assert!(unique.insert(v));
    }
    assert_eq!(unique.len(), 5);
}

#[test]
fn test_grip_handle_construction() {
    let entity = EntityId(1u64 << 32 | 42);
    let pos = (10.0f64, 20.0f64);
    let handle = GripHandle::new(GripType::Endpoint, pos, entity, 0);
    assert_eq!(handle.grip_type, GripType::Endpoint);
    assert_eq!(handle.position, pos);
    assert_eq!(handle.entity, entity);
    assert_eq!(handle.vertex_index, 0);
}

#[test]
fn test_grip_handle_copy() {
    let entity = EntityId(1u64 << 32 | 7);
    let h1 = GripHandle::new(GripType::Center, (5.0f64, 5.0f64), entity, 0);
    let h2 = h1;
    assert_eq!(h1.entity, h2.entity);
    assert_eq!(h1.position, h2.position);
}

#[test]
fn grip_system_starts_empty() {
    let grips: GripSystem<(f64, f64), ()> = GripSystem::new();
    assert!(grips.is_empty());
    assert_eq!(grips.len(), 0);
    assert!(grips.active_drag.is_none());
}

#[test]
fn grip_layout_of_each_shape() {
    assert_eq!(
        grip_slots(ShapeKind::Line),
        vec![(GripType::Endpoint, 0), (GripType::Endpoint, 1), (GripType::Midpoint, 0)]
    );
    assert_eq!(grip_slots(ShapeKind::Circle).len(), 5);
    assert_eq!(grip_slots(ShapeKind::Arc)[2], (GripType::Endpoint, 1));
    assert_eq!(
        grip_slots(ShapeKind::Polyline(3)),
        vec![(GripType::Vertex, 0), (GripType::Vertex, 1), (GripType::Vertex, 2)]
    );
}

#[test]
fn dragging_grips_moves_the_right_part() {
    assert_eq!(drag_target(ShapeKind::Line, GripType::Endpoint, 0), Some(DragTarget::LineStart));
    assert_eq!(drag_target(ShapeKind::Line, GripType::Endpoint, 1), Some(DragTarget::LineEnd));
    assert_eq!(drag_target(ShapeKind::Line, GripType::Midpoint, 0), None);
    assert_eq!(drag_target(ShapeKind::Circle, GripType::Center, 0), Some(DragTarget::Center));
    assert_eq!(drag_target(ShapeKind::Arc, GripType::Endpoint, 0), None);
    assert_eq!(drag_target(ShapeKind::Polyline(2), GripType::Vertex, 1), Some(DragTarget::Vertex(1)));
    assert_eq!(drag_target(ShapeKind::Polyline(2), GripType::Vertex, 2), None);
}

#[test]
fn test_new_grip_is_empty() {
    let grip: GripSystem<(f64, f64), ()> = GripSystem::new();
    assert!(grip.is_empty());
    assert_eq!(grip.len(), 0);
}

#[test]
fn test_default_grip_is_empty() {
    let grip: GripSystem<(f64, f64), ()> = GripSystem::default();
    assert!(grip.is_empty());
}
