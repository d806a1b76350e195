//! Entity-world value types shared by the library's modules.

use vstd::prelude::*;
use crate::layer::{world_active_layers, world_layer_refs};

verus! {

/// The entity world of the `hecs` crate, which holds the drawing's entities
/// and their components.
#[verifier::external_type_specification]
#[verifier::external_body]
pub struct ExWorld(hecs::World);

/// The handles of the entities alive in a world, as [`EntityId`] bits.
pub uninterp spec fn world_entities(w: hecs::World) -> Set<u64>;

/// The handle of an entity in the drawing's entity world, as the bits of the
/// world's own handle (its generation in the high 32 bits, its index in the
/// low 32 bits).
#[derive(Debug, Clone, Copy, PartialEq, Eq, Hash, Structural)]
pub struct EntityId(pub u64);

/// Reference to a layer by ID.
///
/// Entities without this component are considered "ByLayer" — they inherit
/// their visual properties from the current/default layer.
#[derive(Debug, Clone, Copy, PartialEq, Eq, Structural)]
pub struct LayerRef(pub u32);

/// Determines how a visual property is sourced.
#[derive(Debug, Clone, Copy, PartialEq, Eq, Structural)]
pub enum PropertySource {
    ByLayer,
    ByBlock,
    Explicit,
}

impl Default for PropertySource {
    fn default() -> (p: Self)
        ensures
            p == PropertySource::ByLayer,
    {
        PropertySource::ByLayer
    }
}

/// A property value that can be inherited from Layer or Block.
#[derive(Debug, Clone, Copy, PartialEq, Eq, Structural)]
pub enum PropertyValue<T: Copy> {
    ByLayer,
    ByBlock,
    Explicit(T),
}

impl<T: Copy> Default for PropertyValue<T> {
    fn default() -> (p: Self)
        ensures
            p == PropertyValue::<T>::ByLayer,
    {
        PropertyValue::ByLayer
    }
}

/// Marker component indicating that an entity participates in rendering.
#[derive(Debug, Clone, Copy, PartialEq, Eq, Structural)]
pub struct Renderable;

/// Marker component: entity is currently selected.
#[derive(Debug, Clone, Copy, PartialEq, Eq, Structural)]
pub struct Selected;

/// Marker component: entity can be snapped to.
#[derive(Debug, Clone, Copy, PartialEq, Eq, Structural)]
pub struct SnapTarget;

/// The [`LayerRef`] components of a world: entity bits to layer id.
pub uninterp spec fn world_entity_layers(w: hecs::World) -> Map<u64, u32>;

/// The [`PropertySource`] components of a world, by entity bits.
pub uninterp spec fn world_property_sources(w: hecs::World) -> Map<u64, PropertySource>;

/// The [`LayerRef`] component of an entity (hecs `World::get`), if the
/// entity is alive and has one.
#[verifier::external_body]
pub(crate) fn layer_ref_of(world: &hecs::World, e: EntityId) -> (r: Option<LayerRef>)
    ensures
        r == (if world_entity_layers(*world).contains_key(e.0) {
            Some(LayerRef(world_entity_layers(*world)[e.0]))
        } else {
            None
        }),
{
    let handle = hecs::Entity::from_bits(e.0)?;
    world.get::<&LayerRef>(handle).ok().map(|r| *r)
}

/// The [`PropertySource`] component of an entity (hecs `World::get`), if
/// the entity is alive and has one.
#[verifier::external_body]
pub(crate) fn property_source_of(world: &hecs::World, e: EntityId) -> (r: Option<PropertySource>)
    ensures
        r == (if world_property_sources(*world).contains_key(e.0) {
            Some(world_property_sources(*world)[e.0])
        } else {
            None
        }),
{
    let handle = hecs::Entity::from_bits(e.0)?;
    world.get::<&PropertySource>(handle).ok().map(|p| *p)
}

/// Give an entity the [`PropertySource`] component `ps`, replacing any it
/// had (hecs `World::insert_one`).  Fails, changing nothing, if the entity
/// is not alive.
#[verifier::external_body]
pub(crate) fn put_property_source(world: &mut hecs::World, e: EntityId, ps: PropertySource) -> (ok: bool)
    ensures
        ok == world_entities(*old(world)).contains(e.0),
        world_property_sources(*final(world)) == if ok {
            world_property_sources(*old(world)).insert(e.0, ps)
        } else {
            world_property_sources(*old(world))
        },
        world_entities(*final(world)) == world_entities(*old(world)),
        world_entity_layers(*final(world)) == world_entity_layers(*old(world)),
        world_layer_refs(*final(world)) == world_layer_refs(*old(world)),
        world_active_layers(*final(world)) == world_active_layers(*old(world)),
{
    match hecs::Entity::from_bits(e.0) {
        Some(handle) => world.insert_one(handle, ps).is_ok(),
        None => false,
    }
}

/// Give an entity the [`LayerRef`] component `layer`, replacing any it had
/// (hecs `World::insert_one`).  Fails, changing nothing, if the entity is
/// not alive.
#[verifier::external_body]
pub(crate) fn put_layer_ref(world: &mut hecs::World, e: EntityId, layer: LayerRef) -> (ok: bool)
    ensures
        ok == world_entities(*old(world)).contains(e.0),
        world_entity_layers(*final(world)) == if ok {
            world_entity_layers(*old(world)).insert(e.0, layer.0)
        } else {
            world_entity_layers(*old(world))
        },
        world_entities(*final(world)) == world_entities(*old(world)),
        world_property_sources(*final(world)) == world_property_sources(*old(world)),
        world_layer_refs(*final(world)) == world_layer_refs(*old(world)),
        world_active_layers(*final(world)) == world_active_layers(*old(world)),
{
    match hecs::Entity::from_bits(e.0) {
        Some(handle) => world.insert_one(handle, layer).is_ok(),
        None => false,
    }
}

/// Remove the [`LayerRef`] component of an entity (hecs
/// `World::remove_one`); an entity without one is left as it is.
#[verifier::external_body]
pub(crate) fn take_layer_ref(world: &mut hecs::World, e: EntityId) -> (ok: bool)
    ensures
        ok == world_entity_layers(*old(world)).contains_key(e.0),
        world_entity_layers(*final(world)) == world_entity_layers(*old(world)).remove(e.0),
        world_entities(*final(world)) == world_entities(*old(world)),
        world_property_sources(*final(world)) == world_property_sources(*old(world)),
        world_layer_refs(*final(world)) == world_layer_refs(*old(world)),
        world_active_layers(*final(world)) == world_active_layers(*old(world)),
{
    match hecs::Entity::from_bits(e.0) {
        Some(handle) => world.remove_one::<LayerRef>(handle).is_ok(),
        None => false,
    }
}

/// The layer that primitives exploded out of the block insert `insert`
/// receive: the insert's own [`LayerRef`], or layer 0 when it has none.
pub fn insert_layer(world: &hecs::World, insert: EntityId) -> (r: LayerRef)
    ensures
        r == (if world_entity_layers(*world).contains_key(insert.0) {
            LayerRef(world_entity_layers(*world)[insert.0])
        } else {
            LayerRef(0)
        }),
{
    match layer_ref_of(world, insert) {
        Some(r) => r,
        None => LayerRef(0),
    }
}

} // verus!
