//! Block definition types: BlockId, BlockDef, BlockTable.
//!
//! A block definition is a named collection of entities (blueprint) stored
//! in a `BlockTable`.  Instances in the entity world reference a definition
//! by its [`BlockId`].
//!
//! The table is generic over the definition's geometry: the base point type
//! `P`, the entity type `E` and the bounding-box type `B`.  The table's logic
//! (ids, names, lookup) never looks inside them.

use vstd::prelude::*;
use vstd::string::*;

verus! {

/// Unique identifier for a block definition.
///
/// IDs are assigned sequentially by [`BlockTable::insert`] starting from 0.
/// They are stable for the lifetime of the block definition within the table.
#[derive(Debug, Clone, Copy, PartialEq, Eq, Hash, Structural)]
pub struct BlockId(pub u32);

/// A block definition (blueprint).
///
/// Holds a name, a base point, the block's entities, and the bounding box
/// covering them.
#[derive(Debug, Clone)]
pub struct BlockDef<P, E, B> {
    /// Human-readable block name (must be unique within the table).
    pub name: String,
    /// Base / insertion point in local coordinates.
    pub base_point: P,
    /// Local entity storage for the block's geometry.
    pub entities: Vec<E>,
    /// Axis-aligned bounding box covering all entities.
    pub bounds: B,
}

/// Errors that can occur during block table operations.
#[derive(Debug, Clone, Copy, PartialEq, Eq, Structural)]
pub enum BlockError {
    /// A block with the given name already exists in the table.
    NameExists,
    /// No block with the given ID was found in the table.
    BlockNotFound,
}

/// One stored definition with its id.
#[derive(Debug, Clone)]
struct Slot<P, E, B> {
    id: BlockId,
    def: BlockDef<P, E, B>,
}

/// Some entry of `s` carries `id`.
pub open spec fn has_block_id<P, E, B>(s: Seq<(BlockId, BlockDef<P, E, B>)>, id: BlockId) -> bool {
    exists|i: int| 0 <= i < s.len() && #[trigger] s[i].0 == id
}

/// Some entry of `s` is called `name`.
pub open spec fn has_block_name<P, E, B>(s: Seq<(BlockId, BlockDef<P, E, B>)>, name: Seq<char>) -> bool {
    exists|i: int| 0 <= i < s.len() && #[trigger] s[i].1.name@ == name
}

/// The position of the entry with `id` (meaningful when `has_block_id(s, id)`).
pub open spec fn block_index_of_id<P, E, B>(s: Seq<(BlockId, BlockDef<P, E, B>)>, id: BlockId) -> int {
    choose|i: int| 0 <= i < s.len() && #[trigger] s[i].0 == id
}

/// The position of the entry called `name` (meaningful when `has_block_name(s, name)`).
pub open spec fn block_index_of_name<P, E, B>(s: Seq<(BlockId, BlockDef<P, E, B>)>, name: Seq<char>) -> int {
    choose|i: int| 0 <= i < s.len() && #[trigger] s[i].1.name@ == name
}

/// Ids strictly increase along `s`.
pub open spec fn block_ids_ascending<P, E, B>(s: Seq<(BlockId, BlockDef<P, E, B>)>) -> bool {
    forall|i: int, j: int| 0 <= i < j < s.len() ==> (#[trigger] s[i].0).0 < (#[trigger] s[j].0).0
}

/// No two entries of `s` share a name.
pub open spec fn block_names_unique<P, E, B>(s: Seq<(BlockId, BlockDef<P, E, B>)>) -> bool {
    forall|i: int, j: int| 0 <= i < s.len() && 0 <= j < s.len() && i != j
        ==> (#[trigger] s[i].1.name@) != (#[trigger] s[j].1.name@)
}

/// Block definition table.
///
/// Provides CRUD operations on block definitions: insert, get, get_mut,
/// delete, rename, and lookup by name.  IDs are auto-assigned sequentially
/// from 0 and never reused.
#[derive(Debug, Clone)]
pub struct BlockTable<P, E, B> {
    slots: Vec<Slot<P, E, B>>,
    next_id: u32,
}

impl<P, E, B> BlockTable<P, E, B> {
    /// The definitions with their ids, by ascending id.
    pub closed spec fn view(&self) -> Seq<(BlockId, BlockDef<P, E, B>)> {
        self.slots@.map_values(|s: Slot<P, E, B>| (s.id, s.def))
    }

    /// The id the next inserted definition will receive.
    pub closed spec fn next_id(&self) -> u32 {
        self.next_id
    }

    /// The table's invariant: ids ascending and below `next_id`, names unique.
    pub open spec fn wf(&self) -> bool {
        let s = self.view();
        &&& block_ids_ascending(s)
        &&& block_names_unique(s)
        &&& forall|i: int| 0 <= i < s.len() ==> (#[trigger] s[i].0).0 < self.next_id()
    }

    /// Position of the entry with `id`, if any.
    fn find_id(&self, id: BlockId) -> (r: Option<usize>)
        ensures
            match r {
                Some(i) => i < self.view().len() && self.view()[i as int].0 == id,
                None => !has_block_id(self.view(), id),
            },
    {
        let mut i: usize = 0;
        while i < self.slots.len()
            invariant
                i <= self.slots@.len(),
                forall|k: int| 0 <= k < i ==> (#[trigger] self.view()[k]).0 != id,
            decreases self.slots@.len() - i,
        {
            if self.slots[i].id.0 == id.0 {
                return Some(i);
            }
            i = i + 1;
        }
        None
    }

    /// Position of the entry called `name`, if any.
    fn find_name(&self, name: &str) -> (r: Option<usize>)
        ensures
            match r {
                Some(i) => i < self.view().len() && self.view()[i as int].1.name@ == name@,
                None => !has_block_name(self.view(), name@),
            },
    {
        let mut i: usize = 0;
        while i < self.slots.len()
            invariant
                i <= self.slots@.len(),
                forall|k: int| 0 <= k < i ==> (#[trigger] self.view()[k]).1.name@ != name@,
            decreases self.slots@.len() - i,
        {
            if crate::util::str_eq(self.slots[i].def.name.as_str(), name) {
                return Some(i);
            }
            i = i + 1;
        }
        None
    }

    /// Create an empty block table.
    pub fn new() -> (t: Self)
        ensures
            t.wf(),
            t.view() == Seq::<(BlockId, BlockDef<P, E, B>)>::empty(),
            t.next_id() == 0,
    {
        let t = BlockTable { slots: Vec::new(), next_id: 0 };
        assert(t.view() =~= Seq::<(BlockId, BlockDef<P, E, B>)>::empty());
        t
    }

    /// Whether another id can still be assigned (ids are `u32` and never
    /// reused).
    pub fn has_free_id(&self) -> (b: bool)
        ensures
            b == (self.next_id() < u32::MAX),
    {
        self.next_id < u32::MAX
    }

    /// Insert a block definition, auto-assigning a new [`BlockId`].  The
    /// definition is stored with `bounds`, the bounds of its entities, which
    /// the caller computes (they are floating-point geometry); whatever
    /// bounds `def` carried are replaced.
    ///
    /// Fails with `NameExists` if a block with the same name already exists.
    pub fn insert(&mut self, def: BlockDef<P, E, B>, bounds: B) -> (r: Result<BlockId, BlockError>)
        requires
            old(self).wf(),
            old(self).next_id() < u32::MAX,
        ensures
            final(self).wf(),
            r is Err <==> has_block_name(old(self).view(), def.name@),
            match r {
                Ok(id) => {
                    &&& id == BlockId(old(self).next_id())
                    &&& final(self).view() == old(self).view().push((id, BlockDef { bounds, ..def }))
                    &&& final(self).next_id() == old(self).next_id() + 1
                },
                Err(e) => {
                    &&& e == BlockError::NameExists
                    &&& final(self).view() == old(self).view()
                    &&& final(self).next_id() == old(self).next_id()
                },
            },
    {
        if self.find_name(def.name.as_str()).is_some() {
            return Err(BlockError::NameExists);
        }
        let id = BlockId(self.next_id);
        self.next_id = self.next_id + 1;
        let ghost old_view = self.view();
        let mut def = def;
        def.bounds = bounds;
        let ghost d = def;
        self.slots.push(Slot { id, def });
        assert(self.view() =~= old_view.push((id, d)));
        proof {
            let s = self.view();
            assert forall|i: int| 0 <= i < s.len() implies (#[trigger] s[i].0).0 < self.next_id() by {
                if i < old_view.len() {
                    assert(s[i] == old_view[i]);
                }
            }
            assert forall|i: int, j: int| 0 <= i < j < s.len() implies
                (#[trigger] s[i].0).0 < (#[trigger] s[j].0).0 by {
                assert(s[i] == old_view[i]);
                if j < old_view.len() {
                    assert(s[j] == old_view[j]);
                }
            }
            assert forall|i: int, j: int| 0 <= i < s.len() && 0 <= j < s.len() && i != j implies
                (#[trigger] s[i].1.name@) != (#[trigger] s[j].1.name@) by {
                if i < old_view.len() && j < old_view.len() {
                    assert(s[i] == old_view[i] && s[j] == old_view[j]);
                } else if i < old_view.len() {
                    assert(s[i] == old_view[i]);
                } else {
                    assert(s[j] == old_view[j]);
                }
            }
        }
        Ok(id)
    }

    /// Look up a block definition by ID.
    pub fn get(&self, id: BlockId) -> (r: Option<&BlockDef<P, E, B>>)
        requires
            self.wf(),
        ensures
            r is Some <==> has_block_id(self.view(), id),
            r matches Some(d) ==> *d == self.view()[block_index_of_id(self.view(), id)].1,
    {
        match self.find_id(id) {
            Some(i) => {
                proof {
                    lemma_block_id_index(self.view(), id, i as int);
                }
                Some(&self.slots[i].def)
            },
            None => None,
        }
    }

    /// Look up a block definition by name.
    pub fn get_by_name(&self, name: &str) -> (r: Option<&BlockDef<P, E, B>>)
        requires
            self.wf(),
        ensures
            r is Some <==> has_block_name(self.view(), name@),
            r matches Some(d) ==> *d == self.view()[block_index_of_name(self.view(), name@)].1,
    {
        match self.find_name(name) {
            Some(i) => {
                proof {
                    lemma_block_name_index(self.view(), name@, i as int);
                }
                Some(&self.slots[i].def)
            },
            None => None,
        }
    }

    /// Mutably borrow a block definition by ID.
    ///
    /// The table stays well formed as long as the caller keeps the name.
    pub fn get_mut(&mut self, id: BlockId) -> (r: Option<&mut BlockDef<P, E, B>>)
        requires
            old(self).wf(),
        ensures
            r is Some <==> has_block_id(old(self).view(), id),
            final(self).next_id() == old(self).next_id(),
            match r {
                Some(d) => {
                    let i = block_index_of_id(old(self).view(), id);
                    &&& *d == old(self).view()[i].1
                    &&& final(self).view() == old(self).view().update(i, (id, *final(d)))
                },
                None => final(self).view() == old(self).view(),
            },
    {
        match self.find_id(id) {
            Some(i) => {
                proof {
                    lemma_block_id_index(self.view(), id, i as int);
                }
                Some(&mut self.slots[i].def)
            },
            None => None,
        }
    }

    /// Rename a block definition.
    ///
    /// Fails with `BlockNotFound` if `id` does not exist and with
    /// `NameExists` if `new_name` is already taken by a different block.
    /// Renaming to the current name is a no-op and succeeds.
    pub fn rename(&mut self, id: BlockId, new_name: String) -> (r: Result<(), BlockError>)
        requires
            old(self).wf(),
        ensures
            final(self).wf(),
            final(self).next_id() == old(self).next_id(),
            !has_block_id(old(self).view(), id) ==> r == Err::<(), BlockError>(BlockError::BlockNotFound),
            has_block_id(old(self).view(), id) ==> {
                let i = block_index_of_id(old(self).view(), id);
                let d = old(self).view()[i].1;
                if d.name@ == new_name@ {
                    r is Ok && final(self).view() == old(self).view()
                } else if has_block_name(old(self).view(), new_name@) {
                    r == Err::<(), BlockError>(BlockError::NameExists)
                } else {
                    &&& r is Ok
                    &&& final(self).view().len() == old(self).view().len()
                    &&& forall|k: int| 0 <= k < old(self).view().len() && k != i
                        ==> #[trigger] final(self).view()[k] == old(self).view()[k]
                    &&& final(self).view()[i].0 == id
                    &&& final(self).view()[i].1 == (BlockDef { name: new_name, ..d })
                }
            },
            r is Err ==> final(self).view() == old(self).view(),
    {
        let idx = match self.find_id(id) {
            Some(i) => i,
            None => {
                return Err(BlockError::BlockNotFound);
            },
        };
        let ghost old_view = self.view();
        proof {
            lemma_block_id_index(old_view, id, idx as int);
        }
        if crate::util::str_eq(self.slots[idx].def.name.as_str(), new_name.as_str()) {
            return Ok(());
        }
        if self.find_name(new_name.as_str()).is_some() {
            return Err(BlockError::NameExists);
        }
        let ghost nn = new_name;
        let mut slot = self.slots.remove(idx);
        slot.def.name = new_name;
        self.slots.insert(idx, slot);
        proof {
            let s = self.view();
            assert(s.len() == old_view.len());
            assert forall|k: int| 0 <= k < old_view.len() && k != idx implies #[trigger] s[k] == old_view[k] by {}
            assert(s[idx as int].1 == (BlockDef { name: nn, ..old_view[idx as int].1 }));
            assert forall|i: int| 0 <= i < s.len() implies (#[trigger] s[i].0).0 < self.next_id() by {
                assert(s[i].0 == old_view[i].0);
            }
            assert forall|i: int, j: int| 0 <= i < j < s.len() implies
                (#[trigger] s[i].0).0 < (#[trigger] s[j].0).0 by {
                assert(s[i].0 == old_view[i].0 && s[j].0 == old_view[j].0);
            }
            assert forall|i: int, j: int| 0 <= i < s.len() && 0 <= j < s.len() && i != j implies
                (#[trigger] s[i].1.name@) != (#[trigger] s[j].1.name@) by {
                if i == idx {
                    assert(s[j] == old_view[j]);
                } else if j == idx {
                    assert(s[i] == old_view[i]);
                } else {
                    assert(s[i] == old_view[i] && s[j] == old_view[j]);
                }
            }
        }
        Ok(())
    }

    /// Number of block definitions in the table.
    pub fn len(&self) -> (n: usize)
        ensures
            n == self.view().len(),
    {
        self.slots.len()
    }

    /// Returns `true` if the table contains no definitions.
    pub fn is_empty(&self) -> (b: bool)
        ensures
            b == (self.view().len() == 0),
    {
        self.slots.len() == 0
    }

    /// Check whether a block with the given name exists.
    pub fn contains_name(&self, name: &str) -> (b: bool)
        ensures
            b == has_block_name(self.view(), name@),
    {
        self.find_name(name).is_some()
    }

    /// Remove a block definition by ID.
    ///
    /// Fails with `BlockNotFound` if the ID does not exist.
    pub fn delete(&mut self, id: BlockId) -> (r: Result<(), BlockError>)
        requires
            old(self).wf(),
        ensures
            final(self).wf(),
            final(self).next_id() == old(self).next_id(),
            r is Ok <==> has_block_id(old(self).view(), id),
            r is Ok ==> final(self).view() == old(self).view().remove(block_index_of_id(old(self).view(), id)),
            r is Err ==> r == Err::<(), BlockError>(BlockError::BlockNotFound) && final(self).view() == old(self).view(),
    {
        let idx = match self.find_id(id) {
            Some(i) => i,
            None => {
                return Err(BlockError::BlockNotFound);
            },
        };
        let ghost old_view = self.view();
        proof {
            lemma_block_id_index(old_view, id, idx as int);
        }
        let _removed = self.slots.remove(idx);
        assert(self.view() =~= old_view.remove(idx as int));
        proof {
            let s = self.view();
            assert forall|i: int| 0 <= i < s.len() implies (#[trigger] s[i].0).0 < self.next_id() by {
                if i < idx { assert(s[i] == old_view[i]); } else { assert(s[i] == old_view[i + 1]); }
            }
            assert forall|i: int, j: int| 0 <= i < j < s.len() implies
                (#[trigger] s[i].0).0 < (#[trigger] s[j].0).0 by {
                let oi = if i < idx { i } else { i + 1 };
                let oj = if j < idx { j } else { j + 1 };
                assert(s[i] == old_view[oi] && s[j] == old_view[oj]);
            }
            assert forall|i: int, j: int| 0 <= i < s.len() && 0 <= j < s.len() && i != j implies
                (#[trigger] s[i].1.name@) != (#[trigger] s[j].1.name@) by {
                let oi = if i < idx { i } else { i + 1 };
                let oj = if j < idx { j } else { j + 1 };
                assert(s[i] == old_view[oi] && s[j] == old_view[oj]);
            }
        }
        Ok(())
    }
}

impl<P, E, B> Default for BlockTable<P, E, B> {
    fn default() -> (t: Self)
        ensures
            t.wf(),
            t.view() == Seq::<(BlockId, BlockDef<P, E, B>)>::empty(),
            t.next_id() == 0,
    {
        BlockTable::new()
    }
}

/// A definition that was just inserted can be found again by its id and by
/// its name, and reads back as it was inserted.
pub proof fn law_block_insert_then_lookup<P, E, B>(
    before: Seq<(BlockId, BlockDef<P, E, B>)>,
    id: BlockId,
    def: BlockDef<P, E, B>,
)
    requires
        block_ids_ascending(before.push((id, def))),
        block_names_unique(before.push((id, def))),
    ensures
        ({
            let after = before.push((id, def));
            &&& has_block_id(after, id)
            &&& after[block_index_of_id(after, id)].1 == def
            &&& has_block_name(after, def.name@)
            &&& after[block_index_of_name(after, def.name@)].1 == def
        }),
{
    let after = before.push((id, def));
    lemma_block_id_index(after, id, before.len() as int);
    lemma_block_name_index(after, def.name@, before.len() as int);
}

/// Deleting a definition that was just inserted gives back the previous
/// listing.
pub proof fn law_block_insert_then_delete_restores<P, E, B>(
    before: Seq<(BlockId, BlockDef<P, E, B>)>,
    id: BlockId,
    def: BlockDef<P, E, B>,
)
    requires
        block_ids_ascending(before.push((id, def))),
    ensures
        ({
            let after = before.push((id, def));
            after.remove(block_index_of_id(after, id)) == before
        }),
{
    let after = before.push((id, def));
    lemma_block_id_index(after, id, before.len() as int);
    assert(after.remove(before.len() as int) =~= before);
}

/// Ids are never reused: the id the next insert assigns belongs to no
/// definition of a well-formed table, even after deletions.
pub proof fn law_block_next_id_is_fresh<P, E, B>(t: BlockTable<P, E, B>)
    requires
        t.wf(),
    ensures
        !has_block_id(t.view(), BlockId(t.next_id())),
{
    if has_block_id(t.view(), BlockId(t.next_id())) {
        let i = choose|i: int| 0 <= i < t.view().len() && #[trigger] t.view()[i].0 == BlockId(t.next_id());
        assert(t.view()[i].0.0 < t.next_id());
    }
}

/// With ascending ids, the entry carrying `id` is the one `block_index_of_id` picks.
pub proof fn lemma_block_id_index<P, E, B>(s: Seq<(BlockId, BlockDef<P, E, B>)>, id: BlockId, i: int)
    requires
        block_ids_ascending(s),
        0 <= i < s.len(),
        s[i].0 == id,
    ensures
        has_block_id(s, id),
        block_index_of_id(s, id) == i,
{
    assert(has_block_id(s, id));
    let k = block_index_of_id(s, id);
    if k < i {
        assert(s[k].0.0 < s[i].0.0);
    } else if k > i {
        assert(s[i].0.0 < s[k].0.0);
    }
}

/// With unique names, the entry called `name` is the one `block_index_of_name` picks.
pub proof fn lemma_block_name_index<P, E, B>(s: Seq<(BlockId, BlockDef<P, E, B>)>, name: Seq<char>, i: int)
    requires
        block_names_unique(s),
        0 <= i < s.len(),
        s[i].1.name@ == name,
    ensures
        has_block_name(s, name),
        block_index_of_name(s, name) == i,
{
    assert(has_block_name(s, name));
    let k = block_index_of_name(s, name);
    if k != i {
        assert(s[k].1.name@ != s[i].1.name@);
    }
}

} // verus!
