//! Layer system — core types, table storage, entity-world integration, and
//! the manager that keeps the two consistent.
//!
//! | Module / Type     | Role                                          |
//! |-------------------|-----------------------------------------------|
//! | [`layer`]         | [`Layer`], [`LayerId`], [`Linetype`]          |
//! | [`table`]         | [`LayerTable`] — CRUD by ID and name          |
//! | [`error`]         | [`LayerError`] — fallible operation errors    |
//! | [`LayerRef`]      | Component linking entities to a layer         |
//! | [`ActiveLayer`]   | Component holding the current layer ID        |
//! | [`LayerManager`]  | Facade over [`LayerTable`] + world delete logic |

pub mod error;
pub mod layer;
pub mod table;

use vstd::prelude::*;
use vstd::multiset::Multiset;
use crate::ecs::{EntityId, world_entities, world_entity_layers, world_property_sources};

pub use error::LayerError;
pub use layer::{Layer, LayerId, Linetype};
pub use table::LayerTable;
use table::{has_id, index_of_id};

verus! {

/// Component that associates an entity with a layer.
#[derive(Debug, Clone, Copy, PartialEq, Eq, Structural)]
pub struct LayerRef(pub LayerId);

/// Component storing the currently active layer, held by the drawing's
/// resource entity.
#[derive(Debug, Clone, Copy, PartialEq, Eq, Structural)]
pub struct ActiveLayer(pub LayerId);

impl Default for ActiveLayer {
    fn default() -> (a: Self)
        ensures
            a == ActiveLayer(LayerId(0)),
    {
        ActiveLayer(LayerId(0))
    }
}

/// The layer ids of all [`LayerRef`] components in a world, one per entity
/// that has one.
pub uninterp spec fn world_layer_refs(w: hecs::World) -> Multiset<u32>;

/// The [`ActiveLayer`] components of a world: entity bits to layer id.
pub uninterp spec fn world_active_layers(w: hecs::World) -> Map<u64, u32>;

/// The layer id of every [`LayerRef`] component in the world (hecs
/// `World::query::<&LayerRef>`), in the query's order.
#[verifier::external_body]
fn layer_ref_ids(world: &hecs::World) -> (ids: Vec<u32>)
    ensures
        ids@.to_multiset() == world_layer_refs(*world),
{
    world.query::<&LayerRef>().iter().map(|(_, r)| r.0.0).collect()
}

/// The [`ActiveLayer`] component of an entity (hecs `World::get`), if the
/// entity is alive and has one.
#[verifier::external_body]
fn active_layer_of(world: &hecs::World, e: EntityId) -> (r: Option<LayerId>)
    ensures
        r == (if world_active_layers(*world).contains_key(e.0) {
            Some(LayerId(world_active_layers(*world)[e.0]))
        } else {
            None
        }),
        r is Some ==> world_entities(*world).contains(e.0),
{
    let handle = hecs::Entity::from_bits(e.0)?;
    world.get::<&ActiveLayer>(handle).ok().map(|a| a.0)
}

/// Give an entity the [`ActiveLayer`] component `id`, replacing any it had
/// (hecs `World::insert_one`).  Fails, changing nothing, if the entity is
/// not alive.
#[verifier::external_body]
fn put_active_layer(world: &mut hecs::World, e: EntityId, id: LayerId) -> (ok: bool)
    ensures
        ok == world_entities(*old(world)).contains(e.0),
        world_entities(*final(world)) == world_entities(*old(world)),
        world_layer_refs(*final(world)) == world_layer_refs(*old(world)),
        world_entity_layers(*final(world)) == world_entity_layers(*old(world)),
        world_property_sources(*final(world)) == world_property_sources(*old(world)),
        world_active_layers(*final(world)) == if ok {
            world_active_layers(*old(world)).insert(e.0, id.0)
        } else {
            world_active_layers(*old(world))
        },
{
    match hecs::Entity::from_bits(e.0) {
        Some(handle) => world.insert_one(handle, ActiveLayer(id)).is_ok(),
        None => false,
    }
}

/// Count the number of entities in the world whose [`LayerRef`] matches `id`.
pub fn count_layer_refs(world: &hecs::World, id: LayerId) -> (n: usize)
    ensures
        n == world_layer_refs(*world).count(id.0),
        world_layer_refs(*world).count(id.0) <= usize::MAX,
{
    broadcast use vstd::seq_lib::group_to_multiset_ensures;
    let ids = layer_ref_ids(world);
    let mut n: usize = 0;
    let mut i: usize = 0;
    while i < ids.len()
        invariant
            i <= ids@.len(),
            n == ids@.take(i as int).to_multiset().count(id.0),
            n <= i,
        decreases ids@.len() - i,
    {
        assert(ids@.take(i + 1) =~= ids@.take(i as int).push(ids@[i as int]));
        proof {
            vstd::seq_lib::to_multiset_build(ids@.take(i as int), ids@[i as int]);
        }
        if ids[i] == id.0 {
            n = n + 1;
        }
        i = i + 1;
    }
    assert(ids@.take(ids@.len() as int) =~= ids@);
    n
}

/// High-level facade over [`LayerTable`] that coordinates with the entity
/// world: it counts [`LayerRef`] references before deletion and keeps the
/// [`ActiveLayer`] component up to date.
#[derive(Debug, Clone)]
pub struct LayerManager {
    table: LayerTable,
}

impl LayerManager {
    /// The wrapped table.
    pub closed spec fn inner(&self) -> LayerTable {
        self.table
    }

    /// Create a new manager wrapping the given table.
    pub fn new(table: LayerTable) -> (m: Self)
        ensures
            m.inner() == table,
    {
        LayerManager { table }
    }

    /// Immutably borrow the inner [`LayerTable`].
    pub fn table(&self) -> (t: &LayerTable)
        ensures
            *t == self.inner(),
    {
        &self.table
    }

    /// Mutably borrow the inner [`LayerTable`].
    pub fn table_mut(&mut self) -> (t: &mut LayerTable)
        ensures
            *t == old(self).inner(),
            final(self).inner() == *final(t),
    {
        &mut self.table
    }

    /// Delete a layer after counting the entities of `world` that reference
    /// it.
    ///
    /// The count goes to [`LayerTable::delete`]; if the deleted layer was the
    /// one held by the [`ActiveLayer`] component of `resource_entity`, that
    /// component is reset to the default layer.
    pub fn delete_layer(&mut self, world: &mut hecs::World, resource_entity: EntityId, id: LayerId)
        -> (r: Result<(), LayerError>)
        requires
            old(self).inner().wf(),
        ensures
            final(self).inner().wf(),
            final(self).inner().next_id() == old(self).inner().next_id(),
            world_layer_refs(*old(world)).count(id.0) <= usize::MAX,
            ({
                let before = old(self).inner().view();
                let count = world_layer_refs(*old(world)).count(id.0) as usize;
                let was_active = world_active_layers(*old(world)).contains_key(resource_entity.0)
                    && world_active_layers(*old(world))[resource_entity.0] == id.0;
                &&& id == LayerId(0) ==> r == Err::<(), LayerError>(LayerError::CannotDeleteDefault)
                &&& id != LayerId(0) && !has_id(before, id)
                    ==> r == Err::<(), LayerError>(LayerError::NotFound { id: id.0 })
                &&& id != LayerId(0) && has_id(before, id) && count > 0
                    ==> r == Err::<(), LayerError>(LayerError::HasReferences { count })
                &&& r is Ok <==> (id != LayerId(0) && has_id(before, id) && count == 0)
                &&& r is Ok ==> {
                    &&& final(self).inner().view() == before.remove(index_of_id(before, id))
                    &&& final(self).inner().active_id() == (if old(self).inner().active_id() == id {
                        LayerId(0)
                    } else {
                        old(self).inner().active_id()
                    })
                    &&& world_entity_layers(*final(world)) == world_entity_layers(*old(world))
                    &&& world_property_sources(*final(world)) == world_property_sources(*old(world))
                    &&& world_active_layers(*final(world)) == if was_active {
                        world_active_layers(*old(world)).insert(resource_entity.0, 0)
                    } else {
                        world_active_layers(*old(world))
                    }
                }
                &&& r is Err ==> {
                    &&& final(self).inner().view() == before
                    &&& final(self).inner().active_id() == old(self).inner().active_id()
                    &&& *final(world) == *old(world)
                }
                &&& world_entities(*final(world)) == world_entities(*old(world))
                &&& world_layer_refs(*final(world)) == world_layer_refs(*old(world))
            }),
    {
        let was_active = match active_layer_of(world, resource_entity) {
            Some(active) => active.0 == id.0,
            None => false,
        };
        let count = count_layer_refs(world, id);
        let ghost before = self.table;
        match self.table.delete(id, count) {
            Ok(()) => {},
            Err(e) => {
                return Err(e);
            },
        }
        if was_active {
            let ok = put_active_layer(world, resource_entity, LayerId(0));
            if !ok {
                return Err(LayerError::NotFound { id: id.0 });
            }
        }
        Ok(())
    }

    /// Set the active layer, updating both the inner table and the
    /// [`ActiveLayer`] component of `resource_entity`.
    pub fn set_active_layer(&mut self, world: &mut hecs::World, resource_entity: EntityId, id: LayerId)
        -> (r: Result<(), LayerError>)
        requires
            old(self).inner().wf(),
        ensures
            final(self).inner().wf(),
            final(self).inner().view() == old(self).inner().view(),
            final(self).inner().next_id() == old(self).inner().next_id(),
            world_entities(*final(world)) == world_entities(*old(world)),
            world_layer_refs(*final(world)) == world_layer_refs(*old(world)),
            world_entity_layers(*final(world)) == world_entity_layers(*old(world)),
            world_property_sources(*final(world)) == world_property_sources(*old(world)),
            !has_id(old(self).inner().view(), id) ==> {
                &&& r == Err::<(), LayerError>(LayerError::NotFound { id: id.0 })
                &&& final(self).inner().active_id() == old(self).inner().active_id()
                &&& *final(world) == *old(world)
            },
            has_id(old(self).inner().view(), id) ==> {
                &&& final(self).inner().active_id() == id
                &&& r is Ok <==> world_entities(*old(world)).contains(resource_entity.0)
                &&& r is Ok ==> world_active_layers(*final(world))
                    == world_active_layers(*old(world)).insert(resource_entity.0, id.0)
                &&& r is Err ==> r == Err::<(), LayerError>(LayerError::NotFound { id: id.0 })
                    && world_active_layers(*final(world)) == world_active_layers(*old(world))
            },
    {
        match self.table.set_active(id) {
            Ok(()) => {},
            Err(e) => {
                return Err(e);
            },
        }
        if put_active_layer(world, resource_entity, id) {
            Ok(())
        } else {
            Err(LayerError::NotFound { id: id.0 })
        }
    }
}

} // verus!
