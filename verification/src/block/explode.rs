//! The bookkeeping of exploding a block insert into its primitives.
//!
//! The geometry of the primitives (the definition's entities carried
//! through the insert's transform) is computed outside the library; the
//! library finds the definition and the layer the primitives receive, and
//! decides which selected inserts EXPLODE captures.

use vstd::prelude::*;
use crate::ecs::{EntityId, LayerRef, insert_layer, world_entity_layers};
use super::definition::{BlockDef, BlockError, BlockId, BlockTable, block_index_of_id, has_block_id};
use super::insert::BlockRef;

verus! {

/// Look up what exploding the insert entity `insert`, which carries
/// `block_ref`, starts from: the referenced definition, and the layer the
/// exploded primitives receive (the insert's own, or layer 0).
///
/// Fails with `BlockNotFound` when the table has no such definition.
pub fn prepare_explode<'a, P, E, B, T>(
    world: &hecs::World,
    table: &'a BlockTable<P, E, B>,
    insert: EntityId,
    block_ref: &BlockRef<T>,
) -> (r: Result<(&'a BlockDef<P, E, B>, LayerRef), BlockError>)
    requires
        table.wf(),
    ensures
        has_block_id(table.view(), block_ref.definition) <==> r is Ok,
        r matches Ok((def, layer)) ==> {
            &&& *def == table.view()[block_index_of_id(table.view(), block_ref.definition)].1
            &&& layer == (if world_entity_layers(*world).contains_key(insert.0) {
                LayerRef(world_entity_layers(*world)[insert.0])
            } else {
                LayerRef(0)
            })
        },
        r matches Err(e) ==> e == BlockError::BlockNotFound,
{
    match table.get(block_ref.definition) {
        Some(def) => Ok((def, insert_layer(world, insert))),
        None => Err(BlockError::BlockNotFound),
    }
}


/// What EXPLODE captures of one block insert: the insert, a copy of its
/// definition's entities, and its transform.
#[derive(Debug, Clone)]
pub struct BlockInstance<E, T> {
    /// The insert entity.
    pub entity: EntityId,
    /// The definition's entities, copied when the command was created.
    pub def_entities: Vec<E>,
    /// The insert's local-to-world transform.
    pub transform: T,
}

/// An insert, with its [`BlockRef`], whose definition is in the listing `view`.
pub open spec fn is_defined<P, E, B, T>(view: Seq<(BlockId, BlockDef<P, E, B>)>) -> spec_fn((EntityId, BlockRef<T>)) -> bool {
    |c: (EntityId, BlockRef<T>)| has_block_id(view, c.1.definition)
}

/// `inst` is what EXPLODE captures of the insert `c` in the listing `view`.
pub open spec fn captures<P, E: Clone, B, T>(
    view: Seq<(BlockId, BlockDef<P, E, B>)>,
    c: (EntityId, BlockRef<T>),
    inst: BlockInstance<E, T>,
) -> bool {
    let d = view[block_index_of_id(view, c.1.definition)].1;
    &&& inst.entity == c.0
    &&& inst.transform == c.1.transform
    &&& inst.def_entities@.len() == d.entities@.len()
    &&& forall|j: int| 0 <= j < d.entities@.len()
        ==> cloned::<E>(d.entities@[j], #[trigger] inst.def_entities@[j])
}

/// The block inserts EXPLODE captures from the selected entities that carry
/// a [`BlockRef`] (`candidates`, in selection order): those whose definition
/// is in the table, each with a copy of its definition's entities.  Inserts
/// whose definition is missing are skipped.
pub fn capture_block_instances<P, E: Clone, B, T: Copy>(
    table: &BlockTable<P, E, B>,
    candidates: &Vec<(EntityId, BlockRef<T>)>,
) -> (r: Vec<BlockInstance<E, T>>)
    requires
        table.wf(),
    ensures
        r@.len() == candidates@.filter(is_defined::<P, E, B, T>(table.view())).len(),
        forall|i: int| 0 <= i < r@.len() ==> captures(
            table.view(),
            candidates@.filter(is_defined::<P, E, B, T>(table.view()))[i],
            #[trigger] r@[i],
        ),
{
    let ghost pred = is_defined::<P, E, B, T>(table.view());
    let mut r: Vec<BlockInstance<E, T>> = Vec::new();
    let mut i: usize = 0;
    while i < candidates.len()
        invariant
            table.wf(),
            pred == is_defined::<P, E, B, T>(table.view()),
            i <= candidates@.len(),
            r@.len() == candidates@.take(i as int).filter(pred).len(),
            forall|k: int| 0 <= k < r@.len()
                ==> captures(table.view(), candidates@.take(i as int).filter(pred)[k], #[trigger] r@[k]),
        decreases candidates@.len() - i,
    {
        let (entity, block_ref) = candidates[i];
        let ghost prev = candidates@.take(i as int);
        proof {
            assert(candidates@.take(i + 1) =~= prev.push(candidates@[i as int]));
            prev.lemma_filter_push(candidates@[i as int], pred);
        }
        match table.get(block_ref.definition) {
            Some(def) => {
                let inst = BlockInstance { entity, def_entities: def.entities.clone(), transform: block_ref.transform };
                let ghost before = r@;
                r.push(inst);
                assert forall|k: int| 0 <= k < r@.len() implies
                    captures(table.view(), candidates@.take(i + 1).filter(pred)[k], #[trigger] r@[k]) by {
                    if k < before.len() {
                        assert(r@[k] == before[k]);
                    }
                }
            },
            None => {},
        }
        i = i + 1;
    }
    assert(candidates@.take(candidates@.len() as int) =~= candidates@);
    r
}

} // verus!
