use forge::history::replay::{redo_plan, undo_plan, OpKind, ReplayStep};
use forge::ecs::EntityId;
use forge::history::{EntityMapping, History, Transaction};

fn e(index: u64) -> EntityId {
    EntityId(1u64 << 32 | index)
}

#[test]
fn entity_mapping_unknown_returns_original() {
    let mapping = EntityMapping::new();
    assert_eq!(mapping.map(e(42)), e(42));
}

#[test]
fn entity_mapping_mapped_returns_new() {
    let mut mapping = EntityMapping::new();
    mapping.record_spawn(e(1), e(2));
    assert_eq!(mapping.map(e(1)), e(2));
}

#[test]
fn entity_mapping_clear_and_is_empty() {
    let mut mapping = EntityMapping::new();
    assert!(mapping.is_empty());
    mapping.record_spawn(e(1), e(2));
    assert!(!mapping.is_empty());
    mapping.clear();
    assert!(mapping.is_empty());
}

#[test]
fn entity_mapping_multiple_entries() {
    let mut mapping = EntityMapping::new();
    mapping.record_spawn(e(10), e(20));
    mapping.record_spawn(e(30), e(40));
    assert_eq!(mapping.map(e(10)), e(20));
    assert_eq!(mapping.map(e(30)), e(40));
}

#[test]
fn new_transaction_is_empty() {
    let tx: Transaction<u8> = Transaction::new("test");
    assert!(tx.is_empty());
    assert_eq!(tx.label, "test");
}

#[test]
fn push_makes_transaction_non_empty() {
    let mut tx = Transaction::new("test");
    tx.push((e(1), 0.0f64, 10.0f64));
    assert!(!tx.is_empty());
    assert_eq!(tx.ops.len(), 1);
}

#[test]
fn transaction_clone() {
    let mut tx = Transaction::new("clone test");
    tx.push((e(2), 0.0f64, 0.0f64));
    let cloned = tx.clone();
    assert_eq!(cloned.label, tx.label);
    assert_eq!(cloned.ops.len(), tx.ops.len());
}

#[test]
fn history_push_clears_redo() {
    let mut history: History<u8> = History::new();
    history.push(Transaction::new("tx1"));
    history.push(Transaction::new("tx2"));
    history.undo();
    assert!(history.can_redo());
    history.push(Transaction::new("tx3"));
    assert!(!history.can_redo());
}

#[test]
fn history_max_depth_enforced() {
    let mut history: History<u8> = History::with_max_depth(Some(2));
    history.push(Transaction::new("tx1"));
    history.push(Transaction::new("tx2"));
    history.push(Transaction::new("tx3"));
    assert_eq!(history.undo_stack.len(), 2);
    assert_eq!(history.undo_label(), Some("tx3"));
    history.undo();
    assert_eq!(history.undo_label(), Some("tx2"));
}

#[test]
fn history_unlimited_depth() {
    let mut history: History<u8> = History::with_max_depth(None);
    for i in 0..10_000 {
        history.push(Transaction::new(&format!("tx{}", i)));
    }
    assert_eq!(history.undo_stack.len(), 10_000);
}

#[test]
fn history_can_undo_can_redo_transitions() {
    let mut history: History<u8> = History::new();
    assert!(!history.can_undo());
    assert!(!history.can_redo());
    let mut tx = Transaction::new("test");
    tx.push(1);
    history.push(tx);
    assert!(history.can_undo());
    assert!(!history.can_redo());
    history.undo();
    assert!(history.can_redo());
    history.redo();
    assert!(history.can_undo());
}

#[test]
fn history_labels() {
    let mut history: History<u8> = History::new();
    assert_eq!(history.undo_label(), None);
    assert_eq!(history.redo_label(), None);
    history.push(Transaction::new("first action"));
    assert_eq!(history.undo_label(), Some("first action"));
    assert_eq!(history.redo_label(), None);
}

#[test]
fn take_entity_mapping_clears_internal_map() {
    let mut mapping = EntityMapping::new();
    mapping.record_spawn(e(1), e(2));
    assert!(!mapping.is_empty());
    let mut history: History<u8> = History::new();
    history.entity_map = mapping;
    let taken = history.take_entity_mapping();
    assert!(!taken.is_empty());
    assert_eq!(taken.map(e(1)), e(2));
    assert!(history.entity_map.is_empty());
}

#[test]
fn history_undo_empty_returns_none() {
    let mut history: History<u8> = History::new();
    assert!(history.undo().is_none());
    assert!(history.redo().is_none());
}

#[test]
fn undo_then_redo_round_trip_labels() {
    let mut history: History<u8> = History::new();
    history.push(Transaction::new("a"));
    history.push(Transaction::new("b"));
    assert_eq!(history.undo().as_deref(), Some("b"));
    assert_eq!(history.redo_label(), Some("b"));
    assert_eq!(history.undo().as_deref(), Some("a"));
    assert_eq!(history.redo().as_deref(), Some("a"));
    assert_eq!(history.redo().as_deref(), Some("b"));
    assert_eq!(history.undo_stack.len(), 2);
    assert!(history.redo_stack.is_empty());
}

#[test]
fn record_respawn_lands_in_taken_mapping() {
    let mut history: History<u8> = History::new();
    history.record_respawn(e(5), e(9));
    let m = history.take_entity_mapping();
    assert_eq!(m.map(e(5)), e(9));
    assert!(history.take_entity_mapping().is_empty());
}

#[test]
fn zero_depth_keeps_nothing() {
    let mut history: History<u8> = History::with_max_depth(Some(0));
    history.push(Transaction::new("gone"));
    assert!(!history.can_undo());
}

#[test]
fn remapping_fixes_selection_and_primary() {
    let mut mapping = EntityMapping::new();
    mapping.record_spawn(e(1), e(10));
    let mut selected = vec![e(1), e(2)];
    let mut primary = Some(e(1));
    let mut dirty = false;
    forge::history::apply_entity_remapping(&mut selected, &mut primary, &mut dirty, &mapping);
    assert_eq!(selected, vec![e(10), e(2)]);
    assert_eq!(primary, Some(e(10)));
    assert!(dirty);
}

#[test]
fn remapping_with_empty_mapping_changes_nothing() {
    let mapping = EntityMapping::new();
    let mut selected = vec![e(3), e(4)];
    let mut primary = None;
    let mut dirty = false;
    forge::history::apply_entity_remapping(&mut selected, &mut primary, &mut dirty, &mapping);
    assert_eq!(selected, vec![e(3), e(4)]);
    assert_eq!(primary, None);
    assert!(dirty);
}

fn spawned(world: &mut hecs::World) -> EntityId {
    EntityId(world.spawn(()).to_bits().get())
}

#[test]
fn apply_entity_remapping_updates_selection() {
    let mut world = hecs::World::new();
    let e1 = spawned(&mut world);
    let e2 = spawned(&mut world);
    let mut selected = vec![e1];
    let mut primary = Some(e1);
    let mut mapping = EntityMapping::new();
    mapping.record_spawn(e1, e2);
    let mut dirty = false;
    forge::history::apply_entity_remapping(&mut selected, &mut primary, &mut dirty, &mapping);
    assert!(selected.contains(&e2), "remapped entity should be selected");
    assert!(!selected.contains(&e1), "original entity should no longer be in selected set");
}

#[test]
fn apply_entity_remapping_updates_primary() {
    let mut world = hecs::World::new();
    let e1 = spawned(&mut world);
    let e2 = spawned(&mut world);
    let mut selected = vec![e1];
    let mut primary = Some(e1);
    assert_eq!(primary, Some(e1));
    let mut mapping = EntityMapping::new();
    mapping.record_spawn(e1, e2);
    let mut dirty = false;
    forge::history::apply_entity_remapping(&mut selected, &mut primary, &mut dirty, &mapping);
    assert_eq!(primary, Some(e2), "primary should be remapped");
}

#[test]
fn apply_entity_remapping_marks_spatial_dirty() {
    let mut world = hecs::World::new();
    let e = spawned(&mut world);
    let mut selected = vec![e];
    let mut primary = Some(e);
    let mapping = EntityMapping::new();
    let mut dirty = false;
    forge::history::apply_entity_remapping(&mut selected, &mut primary, &mut dirty, &mapping);
    assert!(dirty, "spatial index should be marked dirty");
}

#[test]
fn apply_entity_remapping_empty_selection() {
    let mut selected: Vec<EntityId> = Vec::new();
    let mut primary = None;
    let mapping = EntityMapping::new();
    let mut dirty = false;
    forge::history::apply_entity_remapping(&mut selected, &mut primary, &mut dirty, &mapping);
    assert!(selected.is_empty());
    assert!(dirty);
}

#[test]
fn undo_plan_reverses_and_inverts_each_operation() {
    let kinds = vec![OpKind::Spawn(e(1)), OpKind::Despawn(e(2)), OpKind::Write(e(3)), OpKind::Table];
    assert_eq!(
        undo_plan(&kinds),
        vec![
            ReplayStep::Skip { op: 3 },
            ReplayStep::WriteOld { op: 2, entity: e(3) },
            ReplayStep::Respawn { op: 1, original: e(2) },
            ReplayStep::Despawn { op: 0, entity: e(1) },
        ]
    );
    assert_eq!(
        redo_plan(&kinds),
        vec![
            ReplayStep::Respawn { op: 0, original: e(1) },
            ReplayStep::Despawn { op: 1, entity: e(2) },
            ReplayStep::WriteNew { op: 2, entity: e(3) },
            ReplayStep::Skip { op: 3 },
        ]
    );
    assert!(undo_plan(&Vec::new()).is_empty());
}

#[test]
fn empty_transaction_is_not_recorded() {
    let mut h: History<u32> = History::new();
    assert!(!h.push_unless_empty(Transaction::new("Explode Block")));
    assert!(!h.can_undo());
    let mut tx = Transaction::new("Explode Block");
    tx.push(1);
    assert!(h.push_unless_empty(tx));
    assert_eq!(h.undo_label(), Some("Explode Block"));
}
