use forge::block::explode::{capture_block_instances, prepare_explode};
use forge::ecs::{EntityId, LayerRef, Renderable};
use forge::block::{BlockDef, BlockEditorState, BlockError, BlockId, BlockInsert, BlockManager, BlockRef, BlockTable};

type Def = BlockDef<(f64, f64), u32, ()>;

fn make_def(name: &str) -> Def {
    BlockDef { name: name.to_string(), base_point: (0.0, 0.0), entities: vec![], bounds: () }
}

fn make_def_with(name: &str, entities: Vec<u32>) -> Def {
    BlockDef { name: name.to_string(), base_point: (0.0, 0.0), entities, bounds: () }
}

#[test]
fn test_block_id_creation_and_equality() {
    let a = BlockId(0);
    let b = BlockId(0);
    let c = BlockId(1);
    assert_eq!(a, b);
    assert_ne!(a, c);
}

#[test]
fn test_block_id_hash() {
    let mut set = std::collections::HashSet::new();
    set.insert(BlockId(0));
    set.insert(BlockId(1));
    set.insert(BlockId(0));
    assert_eq!(set.len(), 2);
}

#[test]
fn test_block_table_new_is_empty() {
    let table: BlockTable<(f64, f64), u32, ()> = BlockTable::new();
    assert_eq!(table.len(), 0);
    assert!(table.is_empty());
}

#[test]
fn test_block_table_insert_sequential_ids() {
    let mut table = BlockTable::new();
    let id0 = table.insert(make_def("A"), ());
    assert!(id0.is_ok());
    assert_eq!(id0.unwrap(), BlockId(0));
    let id1 = table.insert(make_def("B"), ());
    assert!(id1.is_ok());
    assert_eq!(id1.unwrap(), BlockId(1));
    assert_eq!(table.len(), 2);
}

#[test]
fn test_block_table_insert_duplicate_name() {
    let mut table = BlockTable::new();
    assert!(table.insert(make_def("dup"), ()).is_ok());
    let result = table.insert(make_def("dup"), ());
    assert_eq!(result, Err(BlockError::NameExists));
    assert_eq!(table.len(), 1);
}

#[test]
fn test_block_table_get_existing() {
    let mut table = BlockTable::new();
    let id = table.insert(make_def("get-me"), ()).unwrap();
    let def = table.get(id);
    assert!(def.is_some());
    assert_eq!(def.unwrap().name, "get-me");
}

#[test]
fn test_block_table_get_missing() {
    let table: BlockTable<(f64, f64), u32, ()> = BlockTable::new();
    assert!(table.get(BlockId(42)).is_none());
}

#[test]
fn test_block_table_get_by_name() {
    let mut table = BlockTable::new();
    table.insert(make_def("find-me"), ()).unwrap();
    let def = table.get_by_name("find-me");
    assert!(def.is_some());
    assert_eq!(def.unwrap().name, "find-me");
}

#[test]
fn test_block_table_get_by_name_missing() {
    let table: BlockTable<(f64, f64), u32, ()> = BlockTable::new();
    assert!(table.get_by_name("nope").is_none());
}

#[test]
fn test_block_table_get_mut_allows_mutation() {
    let mut table = BlockTable::new();
    let id = table.insert(make_def("mutable"), ()).unwrap();
    let def = table.get_mut(id).unwrap();
    def.base_point = (100.0, 200.0);
    let def = table.get(id).unwrap();
    assert_eq!(def.base_point.0, 100.0);
    assert_eq!(def.base_point.1, 200.0);
}

#[test]
fn test_block_table_rename_valid() {
    let mut table = BlockTable::new();
    let id = table.insert(make_def("old-name"), ()).unwrap();
    assert!(table.rename(id, "new-name".to_string()).is_ok());
    assert_eq!(table.get(id).unwrap().name, "new-name");
    assert!(table.get_by_name("new-name").is_some());
    assert!(table.get_by_name("old-name").is_none());
}

#[test]
fn test_block_table_rename_duplicate() {
    let mut table = BlockTable::new();
    table.insert(make_def("first"), ()).unwrap();
    let id2 = table.insert(make_def("second"), ()).unwrap();
    assert_eq!(table.rename(id2, "first".to_string()), Err(BlockError::NameExists));
}

#[test]
fn test_block_table_rename_same_name_is_no_op() {
    let mut table = BlockTable::new();
    let id = table.insert(make_def("unchanged"), ()).unwrap();
    assert!(table.rename(id, "unchanged".to_string()).is_ok());
    assert_eq!(table.len(), 1);
}

#[test]
fn test_block_table_rename_nonexistent() {
    let mut table: BlockTable<(f64, f64), u32, ()> = BlockTable::new();
    assert_eq!(table.rename(BlockId(999), "anything".to_string()), Err(BlockError::BlockNotFound));
}

#[test]
fn test_block_table_delete_valid() {
    let mut table = BlockTable::new();
    let id = table.insert(make_def("delete-me"), ()).unwrap();
    assert!(table.delete(id).is_ok());
    assert_eq!(table.len(), 0);
    assert!(table.get(id).is_none());
    assert!(table.get_by_name("delete-me").is_none());
}

#[test]
fn test_block_table_delete_nonexistent() {
    let mut table: BlockTable<(f64, f64), u32, ()> = BlockTable::new();
    assert_eq!(table.delete(BlockId(42)), Err(BlockError::BlockNotFound));
}

#[test]
fn test_block_table_contains_name() {
    let mut table = BlockTable::new();
    table.insert(make_def("exists"), ()).unwrap();
    assert!(table.contains_name("exists"));
    assert!(!table.contains_name("missing"));
}

#[test]
fn test_block_table_default_is_empty() {
    let table: BlockTable<(f64, f64), u32, ()> = BlockTable::default();
    assert!(table.is_empty());
}

#[test]
fn ids_are_never_reused_after_delete() {
    let mut table = BlockTable::new();
    let a = table.insert(make_def("a"), ()).unwrap();
    table.delete(a).unwrap();
    let b = table.insert(make_def("b"), ()).unwrap();
    assert_eq!(b, BlockId(1));
}

// ---------------------------------------------------------------------------
// BlockManager
// ---------------------------------------------------------------------------

#[test]
fn test_block_manager_new_is_empty() {
    let mgr: BlockManager<(f64, f64), u32, ()> = BlockManager::new();
    assert!(mgr.is_empty());
    assert_eq!(mgr.len(), 0);
}

#[test]
fn test_block_manager_insert_and_get() {
    let mut mgr = BlockManager::new();
    let id = mgr.insert(make_def("test"), ()).unwrap();
    assert_eq!(mgr.len(), 1);
    let def = mgr.get(id);
    assert!(def.is_some());
    assert_eq!(def.unwrap().name, "test");
}

#[test]
fn test_block_manager_delete() {
    let mut mgr = BlockManager::new();
    let id = mgr.insert(make_def("to-delete"), ()).unwrap();
    assert_eq!(mgr.len(), 1);
    mgr.delete(id).unwrap();
    assert_eq!(mgr.len(), 0);
    assert!(mgr.get(id).is_none());
}

#[test]
fn test_block_manager_get_by_name() {
    let mut mgr = BlockManager::new();
    mgr.insert(make_def("alpha"), ()).unwrap();
    mgr.insert(make_def("beta"), ()).unwrap();
    assert!(mgr.get_by_name("alpha").is_some());
    assert!(mgr.get_by_name("beta").is_some());
    assert!(mgr.get_by_name("gamma").is_none());
}

#[test]
fn test_block_manager_default_is_empty() {
    let mgr: BlockManager<(f64, f64), u32, ()> = BlockManager::default();
    assert!(mgr.is_empty());
}

#[test]
fn block_manager_rename_and_contains() {
    let mut mgr = BlockManager::new();
    let id = mgr.insert(make_def("alpha"), ()).unwrap();
    mgr.rename(id, "omega".to_string()).unwrap();
    assert!(mgr.contains_name("omega"));
    assert!(!mgr.contains_name("alpha"));
    mgr.get_mut(id).unwrap().entities.push(7);
    assert_eq!(mgr.get(id).unwrap().entities, vec![7]);
}

// ---------------------------------------------------------------------------
// Insert types
// ---------------------------------------------------------------------------

#[test]
fn test_block_ref_creation() {
    let id = BlockId(0);
    let bref = BlockRef { definition: id, transform: () };
    assert_eq!(bref.definition, id);
}

#[test]
fn test_block_ref_debug() {
    let bref = BlockRef { definition: BlockId(3), transform: () };
    let dbg = format!("{:?}", bref);
    assert!(dbg.contains("BlockRef"));
    assert!(dbg.contains("definition"));
    assert!(dbg.contains("transform"));
}

#[test]
fn test_block_insert_default() {
    let insert = BlockInsert;
    let dbg = format!("{:?}", insert);
    assert!(dbg.contains("BlockInsert"));
    let _ = BlockInsert::default();
}

// ---------------------------------------------------------------------------
// BlockEditorState
// ---------------------------------------------------------------------------

#[test]
fn test_editor_new_is_inactive() {
    let editor: BlockEditorState<u32> = BlockEditorState::new();
    assert!(!editor.is_active());
    assert!(editor.active_block_id().is_none());
}

#[test]
fn test_editor_default_is_inactive() {
    let editor: BlockEditorState<u32> = BlockEditorState::default();
    assert!(!editor.is_active());
}

#[test]
fn test_enter_activates_and_clones_entities() {
    let def = make_def_with("test", vec![1]);
    let mut editor = BlockEditorState::new();
    editor.enter(BlockId(1), &def);
    assert!(editor.is_active());
    assert_eq!(editor.active_block_id(), Some(BlockId(1)));
    assert_eq!(editor.original_entities.len(), def.entities.len());
}

#[test]
fn test_enter_re_entering_overwrites() {
    let def1 = make_def_with("first", vec![1]);
    let def2 = make_def_with("second", vec![2]);
    let mut editor = BlockEditorState::new();
    editor.enter(BlockId(1), &def1);
    assert_eq!(editor.active_block_id(), Some(BlockId(1)));
    editor.enter(BlockId(2), &def2);
    assert_eq!(editor.active_block_id(), Some(BlockId(2)));
    assert_eq!(editor.original_entities, vec![2]);
}

#[test]
fn test_cancel_restores_original_entities() {
    let mut table = BlockTable::new();
    let block_id = table.insert(make_def_with("cancel-test", vec![1]), ()).unwrap();
    let mut editor = BlockEditorState::new();
    editor.enter(block_id, table.get(block_id).unwrap());
    if let Some(def) = table.get_mut(block_id) {
        def.entities.push(2);
        assert_eq!(def.entities.len(), 2);
    }
    assert_eq!(editor.cancel(&mut table, ()), Some(block_id));
    assert!(!editor.is_active());
    let restored = table.get(block_id).unwrap();
    assert_eq!(restored.entities.len(), 1);
}

#[test]
fn test_cancel_idempotent_when_inactive() {
    let mut table: BlockTable<(f64, f64), u32, ()> = BlockTable::new();
    let mut editor = BlockEditorState::new();
    assert_eq!(editor.cancel(&mut table, ()), None);
    assert!(!editor.is_active());
}

#[test]
fn test_save_deactivates_and_names_block() {
    let mut table = BlockTable::new();
    let id = table.insert(make_def_with("s", vec![1, 2]), ()).unwrap();
    let mut editor = BlockEditorState::new();
    editor.enter(id, table.get(id).unwrap());
    assert_eq!(editor.save(&mut table, ()), id);
    assert!(!editor.is_active());
}

/// A block whose entities are points and whose bounds are the largest
/// coordinates among them.
type PointBlock = BlockDef<(f64, f64), (f64, f64), (f64, f64)>;

fn max_corner(points: &[(f64, f64)]) -> (f64, f64) {
    points.iter().fold((f64::MIN, f64::MIN), |acc, p| (acc.0.max(p.0), acc.1.max(p.1)))
}

#[test]
fn test_save_updates_bounds() {
    let mut table: BlockTable<(f64, f64), (f64, f64), (f64, f64)> = BlockTable::new();
    let def: PointBlock =
        BlockDef { name: "bounds-test".to_string(), base_point: (0.0, 0.0), entities: vec![(0.0, 0.0)], bounds: (0.0, 0.0) };
    let initial = max_corner(&def.entities);
    let block_id = table.insert(def, initial).unwrap();
    let mut editor = BlockEditorState::new();
    editor.enter(block_id, table.get(block_id).unwrap());
    if let Some(def) = table.get_mut(block_id) {
        def.entities.push((100.0, 100.0));
    }
    let bounds = max_corner(&table.get(block_id).unwrap().entities);
    editor.save(&mut table, bounds);
    let saved = table.get(block_id).unwrap();
    assert!(saved.bounds.0 >= 100.0);
    assert!(saved.bounds.1 >= 100.0);
    assert_eq!(saved.entities.len(), 2);
}

#[test]
fn test_cancel_recomputes_bounds() {
    let mut table: BlockTable<(f64, f64), (f64, f64), (f64, f64)> = BlockTable::new();
    let def: PointBlock = BlockDef {
        name: "bounds".to_string(),
        base_point: (0.0, 0.0),
        entities: vec![(0.0, 0.0), (10.0, 10.0)],
        bounds: (10.0, 10.0),
    };
    let initial = max_corner(&def.entities);
    let block_id = table.insert(def, initial).unwrap();
    let mut editor = BlockEditorState::new();
    let original = table.get(block_id).unwrap().clone();
    editor.enter(block_id, &original);
    if let Some(def) = table.get_mut(block_id) {
        def.entities.clear();
        def.bounds = (0.0, 0.0);
    }
    let bounds = max_corner(&editor.original_entities);
    editor.cancel(&mut table, bounds);
    let restored = table.get(block_id).unwrap();
    assert_eq!(restored.entities.len(), 2);
    assert_eq!(restored.bounds, max_corner(&original.entities));
}

#[test]
fn test_deactivate() {
    let def = make_def_with("deact", vec![1]);
    let mut editor = BlockEditorState::new();
    editor.enter(BlockId(1), &def);
    assert!(editor.is_active());
    editor.deactivate();
    assert!(!editor.is_active());
    assert!(editor.active_block_id().is_none());
}

#[test]
fn explode_takes_insert_layer_or_default() {
    let mut table: BlockTable<(f64, f64), u32, ()> = BlockTable::new();
    let id = table.insert(make_def_with("door", vec![1, 2]), ()).unwrap();
    let mut world = hecs::World::new();
    let on_layer = world.spawn((Renderable, LayerRef(4)));
    let bare = world.spawn((Renderable,));
    let block_ref = BlockRef { definition: id, transform: () };

    let (def, layer) = prepare_explode(&world, &table, EntityId(on_layer.to_bits().get()), &block_ref).unwrap();
    assert_eq!(def.entities, vec![1, 2]);
    assert_eq!(layer, LayerRef(4));

    let (_, layer) = prepare_explode(&world, &table, EntityId(bare.to_bits().get()), &block_ref).unwrap();
    assert_eq!(layer, LayerRef(0));
}

#[test]
fn explode_of_missing_definition_fails() {
    let table: BlockTable<(f64, f64), u32, ()> = BlockTable::new();
    let world = hecs::World::new();
    let block_ref = BlockRef { definition: BlockId(9), transform: () };
    assert!(matches!(prepare_explode(&world, &table, EntityId(1 << 32), &block_ref), Err(BlockError::BlockNotFound)));
}

#[test]
fn explode_captures_only_inserts_with_a_definition() {
    let mut table: BlockTable<(f64, f64), u32, ()> = BlockTable::new();
    let id = table.insert(make_def_with("door", vec![7, 8]), ()).unwrap();
    let a = EntityId(1u64 << 32 | 1);
    let b = EntityId(1u64 << 32 | 2);
    let c = EntityId(1u64 << 32 | 3);
    let candidates = vec![
        (a, BlockRef { definition: id, transform: 2.5f64 }),
        (b, BlockRef { definition: BlockId(99), transform: 1.0f64 }),
        (c, BlockRef { definition: id, transform: -1.0f64 }),
    ];
    let captured = capture_block_instances(&table, &candidates);
    assert_eq!(captured.len(), 2);
    assert_eq!(captured[0].entity, a);
    assert_eq!(captured[0].def_entities, vec![7, 8]);
    assert_eq!(captured[0].transform, 2.5);
    assert_eq!(captured[1].entity, c);
    assert_eq!(captured[1].transform, -1.0);
}

type Segment = ((f64, f64), (f64, f64));
type Bounds = ((f64, f64), (f64, f64));

/// The bounds of line segments: the smallest and largest coordinates.
fn segment_bounds(segments: &[Segment]) -> Bounds {
    let mut min = (f64::INFINITY, f64::INFINITY);
    let mut max = (f64::NEG_INFINITY, f64::NEG_INFINITY);
    for &(a, b) in segments {
        for p in [a, b] {
            min = (min.0.min(p.0), min.1.min(p.1));
            max = (max.0.max(p.0), max.1.max(p.1));
        }
    }
    (min, max)
}

#[test]
fn test_block_table_insert_auto_computes_bounds() {
    let mut table: BlockTable<(f64, f64), Segment, Bounds> = BlockTable::new();
    let def = BlockDef {
        name: "auto-bounds".to_string(),
        base_point: (0.0, 0.0),
        entities: vec![((2.0, 3.0), (8.0, 7.0))],
        bounds: ((f64::INFINITY, f64::INFINITY), (f64::NEG_INFINITY, f64::NEG_INFINITY)),
    };
    let bounds = segment_bounds(&def.entities);
    let id = table.insert(def, bounds).unwrap();

    let def = table.get(id).unwrap();
    assert_eq!(def.bounds.0 .0, 2.0);
    assert_eq!(def.bounds.1 .0, 8.0);
    assert_eq!(def.bounds.0 .1, 3.0);
    assert_eq!(def.bounds.1 .1, 7.0);
}
