use forge::layer::{Layer, LayerError, LayerId, LayerManager, LayerRef, ActiveLayer, LayerTable, Linetype, count_layer_refs};
use forge::util::Color;
use forge::ecs::EntityId;

fn linewidth(l: &Layer) -> f32 {
    f32::from_bits(l.linewidth)
}

#[test]
fn layer_id_default_is_zero() {
    assert_eq!(LayerId::default(), LayerId(0));
}

#[test]
fn layer_id_copy_and_eq() {
    let a = LayerId(42);
    let b = a; // Copy
    assert_eq!(a, b);
}

#[test]
fn linetype_default_is_solid() {
    assert_eq!(Linetype::default(), Linetype::Solid);
}

#[test]
fn linetype_display() {
    assert_eq!(Linetype::Solid.to_string(), "solid");
    assert_eq!(Linetype::Dotted.to_string(), "dotted");
    assert_eq!(Linetype::Dashed.to_string(), "dashed");
    assert_eq!(Linetype::DashDot.to_string(), "dashdot");
    assert_eq!(Linetype::Border.to_string(), "border");
    assert_eq!(Linetype::Center.to_string(), "center");
}

#[test]
fn linetype_to_u32_bitmask() {
    assert_eq!(u32::from(Linetype::Solid), 0xFFFF);
    assert_eq!(u32::from(Linetype::Dotted), 0x3333);
    assert_eq!(u32::from(Linetype::Dashed), 0x0F0F);
    assert_eq!(u32::from(Linetype::DashDot), 0x1B1B);
    assert_eq!(u32::from(Linetype::Border), 0xAAAA);
    assert_eq!(u32::from(Linetype::Center), 0xCCCC);
}

#[test]
fn layer_default_values() {
    let layer = Layer::default();
    assert_eq!(layer.id, LayerId(0));
    assert_eq!(layer.color, Color::white());
    assert_eq!(layer.linetype, Linetype::Solid);
    assert!((linewidth(&layer) - 0.25).abs() < f32::EPSILON);
    assert!(layer.visible);
    assert!(!layer.locked);
    assert!(!layer.frozen);
}

#[test]
fn new_creates_default_layer() {
    let table = LayerTable::new();
    assert_eq!(table.len(), 1);
    let def = table.get(LayerId::default()).unwrap();
    assert_eq!(def.name(), "0");
    assert_eq!(def.color, Color::white());
    assert_eq!(def.linetype, Linetype::Solid);
}

#[test]
fn insert_rejects_duplicate_names() {
    let mut table = LayerTable::new();
    table.insert("walls").unwrap();
    let err = table.insert("walls").unwrap_err();
    assert_eq!(err, LayerError::DuplicateName { name: "walls".to_owned() });
}

#[test]
fn insert_assigns_sequential_ids() {
    let mut table = LayerTable::new();
    let a = table.insert("A").unwrap();
    let b = table.insert("B").unwrap();
    let c = table.insert("C").unwrap();
    assert_eq!(a.0, 1);
    assert_eq!(b.0, 2);
    assert_eq!(c.0, 3);
}

#[test]
fn delete_refuses_default_layer() {
    let mut table = LayerTable::new();
    let err = table.delete(LayerId::default(), 0).unwrap_err();
    assert_eq!(err, LayerError::CannotDeleteDefault);
}

#[test]
fn delete_with_references_refuses() {
    let mut table = LayerTable::new();
    let id = table.insert("walls").unwrap();
    let err = table.delete(id, 3).unwrap_err();
    assert_eq!(err, LayerError::HasReferences { count: 3 });
}

#[test]
fn delete_with_zero_references_succeeds() {
    let mut table = LayerTable::new();
    let id = table.insert("walls").unwrap();
    table.delete(id, 0).unwrap();
    assert!(!table.contains(id));
    assert!(!table.contains_name("walls"));
}

#[test]
fn delete_resets_active_layer_to_default() {
    let mut table = LayerTable::new();
    let id = table.insert("tmp").unwrap();
    table.set_active(id).unwrap();
    table.delete(id, 0).unwrap();
    assert_eq!(table.active(), LayerId::default());
}

#[test]
fn rename_updates_name_map() {
    let mut table = LayerTable::new();
    let id = table.insert("old").unwrap();
    table.rename(id, "new").unwrap();
    assert!(table.contains_name("new"));
    assert!(!table.contains_name("old"));
    assert_eq!(table.get(id).unwrap().name, "new");
}

#[test]
fn rename_duplicate_rejected() {
    let mut table = LayerTable::new();
    let a = table.insert("A").unwrap();
    table.insert("B").unwrap();
    let err = table.rename(a, "B").unwrap_err();
    assert_eq!(err, LayerError::DuplicateName { name: "B".to_owned() });
}

#[test]
fn rename_default_layer_rejected() {
    let mut table = LayerTable::new();
    let err = table.rename(LayerId::default(), "anything").unwrap_err();
    assert_eq!(err, LayerError::CannotRenameDefault);
}

#[test]
fn rename_nonexistent_layer() {
    let mut table = LayerTable::new();
    let err = table.rename(LayerId(999), "foo").unwrap_err();
    assert_eq!(err, LayerError::NotFound { id: 999 });
}

#[test]
fn get_round_trip() {
    let mut table = LayerTable::new();
    let id = table.insert("walls").unwrap();
    let by_id = table.get(id).unwrap();
    let by_name = table.get_by_name("walls").unwrap();
    assert_eq!(by_id.name(), "walls");
    assert_eq!(by_name.id(), id);
}

#[test]
fn get_mut_allows_modification() {
    let mut table = LayerTable::new();
    let id = table.insert("walls").unwrap();
    let layer = table.get_mut(id).unwrap();
    layer.linewidth = 1.0f32.to_bits();
    assert!((linewidth(table.get(id).unwrap()) - 1.0).abs() < f32::EPSILON);
}

#[test]
fn set_active_validates_layer_exists() {
    let mut table = LayerTable::new();
    let err = table.set_active(LayerId(999)).unwrap_err();
    assert_eq!(err, LayerError::NotFound { id: 999 });
}

#[test]
fn set_active_works() {
    let mut table = LayerTable::new();
    let id = table.insert("walls").unwrap();
    table.set_active(id).unwrap();
    assert_eq!(table.active(), id);
}

#[test]
fn iter_returns_sorted_by_id() {
    let mut table = LayerTable::new();
    let _ = table.insert("C").unwrap();
    let _ = table.insert("B").unwrap();
    let _ = table.insert("A").unwrap();
    let names: Vec<&str> = table.iter().map(|l| l.name.as_str()).collect();
    assert_eq!(names, vec!["0", "C", "B", "A"]);
}

#[test]
fn contains_checks() {
    let mut table = LayerTable::new();
    let id = table.insert("walls").unwrap();
    assert!(table.contains(id));
    assert!(table.contains_name("walls"));
    assert!(!table.contains(LayerId(999)));
    assert!(!table.contains_name("nope"));
}

#[test]
fn all_names_returns_all() {
    let mut table = LayerTable::new();
    table.insert("A").unwrap();
    table.insert("B").unwrap();
    let mut names = table.all_names();
    names.sort();
    assert_eq!(names, vec!["0", "A", "B"]);
}

#[test]
fn is_default_checks() {
    let table = LayerTable::new();
    assert!(table.is_default(LayerId(0)));
    assert!(!table.is_default(LayerId(1)));
}

#[test]
fn delete_nonexistent_layer() {
    let mut table = LayerTable::new();
    let err = table.delete(LayerId(999), 0).unwrap_err();
    assert_eq!(err, LayerError::NotFound { id: 999 });
}

// ---------------------------------------------------------------------------
// LayerManager and the entity world
// ---------------------------------------------------------------------------

fn eid(e: hecs::Entity) -> EntityId {
    EntityId(e.to_bits().get())
}

fn make_world() -> (hecs::World, EntityId, LayerManager) {
    let mut world = hecs::World::new();
    let res = world.spawn((ActiveLayer::default(),));
    let mgr = LayerManager::new(LayerTable::new());
    (world, eid(res), mgr)
}

#[test]
fn layer_manager_new_and_accessors() {
    let mgr = LayerManager::new(LayerTable::new());
    assert_eq!(mgr.table().len(), 1);
    assert!(mgr.table().contains(LayerId::default()));
}

#[test]
fn layer_manager_table_mut() {
    let mut mgr = LayerManager::new(LayerTable::new());
    let id = mgr.table_mut().insert("walls").unwrap();
    assert_eq!(id.0, 1);
}

#[test]
fn delete_layer_counts_references() {
    let (mut world, res, mut mgr) = make_world();
    let id = mgr.table_mut().insert("walls").unwrap();
    let res_handle = hecs::Entity::from_bits(res.0).unwrap();
    world.insert_one(res_handle, ActiveLayer(id)).expect("active layer set");

    let e1 = world.spawn((LayerRef(id),));
    let e2 = world.spawn((LayerRef(id),));
    let e3 = world.spawn((LayerRef(id),));
    let _other = world.spawn((LayerRef(LayerId::default()),));

    let err = mgr.delete_layer(&mut world, res, id).expect_err("expected HasReferences");
    assert_eq!(err, LayerError::HasReferences { count: 3 });

    world.despawn(e1).unwrap();
    world.despawn(e2).unwrap();
    world.despawn(e3).unwrap();

    mgr.delete_layer(&mut world, res, id).unwrap();
    // The active layer was the deleted one: it is reset to the default.
    assert_eq!(world.get::<&ActiveLayer>(res_handle).unwrap().0, LayerId::default());
}

#[test]
fn set_active_layer_updates_resource() {
    let (mut world, res, mut mgr) = make_world();
    let id = mgr.table_mut().insert("walls").unwrap();
    mgr.set_active_layer(&mut world, res, id).unwrap();
    let handle = hecs::Entity::from_bits(res.0).unwrap();
    let active = world.get::<&ActiveLayer>(handle).unwrap();
    assert_eq!(active.0, id);
    assert_eq!(mgr.table().active(), id);
}

#[test]
fn set_active_layer_invalid_id() {
    let (mut world, res, mut mgr) = make_world();
    let err = mgr.set_active_layer(&mut world, res, LayerId(999)).unwrap_err();
    assert_eq!(err, LayerError::NotFound { id: 999 });
}

#[test]
fn count_layer_refs_works() {
    let mut world = hecs::World::new();
    world.spawn(());
    let id = LayerId(5);
    world.spawn((LayerRef(id),));
    world.spawn((LayerRef(id),));
    world.spawn((LayerRef(LayerId::default()),));
    assert_eq!(count_layer_refs(&world, id), 2);
    assert_eq!(count_layer_refs(&world, LayerId::default()), 1);
    assert_eq!(count_layer_refs(&world, LayerId(99)), 0);
}

#[test]
fn set_active_layer_on_missing_entity_reports_not_found() {
    let (mut world, _res, mut mgr) = make_world();
    let id = mgr.table_mut().insert("walls").unwrap();
    let ghost = world.spawn(());
    world.despawn(ghost).unwrap();
    let err = mgr.set_active_layer(&mut world, eid(ghost), id).unwrap_err();
    assert_eq!(err, LayerError::NotFound { id: id.0 });
    // The table's cursor moved even though the world could not be updated.
    assert_eq!(mgr.table().active(), id);
}

#[test]
fn delete_inactive_layer_keeps_active_component() {
    let (mut world, res, mut mgr) = make_world();
    let id = mgr.table_mut().insert("walls").unwrap();
    mgr.delete_layer(&mut world, res, id).unwrap();
    let handle = hecs::Entity::from_bits(res.0).unwrap();
    assert_eq!(world.get::<&ActiveLayer>(handle).unwrap().0, LayerId::default());
    assert!(!mgr.table().contains(id));
}

#[test]
fn insert_then_delete_restores_listing() {
    let mut table = LayerTable::new();
    table.insert("A").unwrap();
    let before: Vec<String> = table.all_names();
    let id = table.insert("B").unwrap();
    table.delete(id, 0).unwrap();
    assert_eq!(table.all_names(), before);
}

#[test]
fn rename_to_same_name_is_noop() {
    let mut table = LayerTable::new();
    let id = table.insert("A").unwrap();
    table.rename(id, "A").unwrap();
    assert_eq!(table.get(id).unwrap().name, "A");
    assert_eq!(table.len(), 2);
}

#[test]
fn rename_back_restores_listing() {
    let mut table = LayerTable::new();
    let id = table.insert("walls").unwrap();
    table.insert("doors").unwrap();
    let before: Vec<String> = table.all_names();
    table.rename(id, "partitions").unwrap();
    assert_ne!(table.all_names(), before);
    table.rename(id, "walls").unwrap();
    assert_eq!(table.all_names(), before);
    assert_eq!(table.get_by_name("walls").unwrap().id, id);
}

#[test]
fn refused_delete_leaves_world_components() {
    let (mut world, res, mut mgr) = make_world();
    let id = mgr.table_mut().insert("walls").unwrap();
    let user = world.spawn((LayerRef(id), forge::ecs::LayerRef(4), forge::ecs::PropertySource::ByBlock));
    let err = mgr.delete_layer(&mut world, res, id).unwrap_err();
    assert_eq!(err, LayerError::HasReferences { count: 1 });
    assert_eq!(world.get::<&forge::ecs::LayerRef>(user).unwrap().0, 4);
    assert_eq!(*world.get::<&forge::ecs::PropertySource>(user).unwrap(), forge::ecs::PropertySource::ByBlock);
    assert!(mgr.table().contains(id));
}
