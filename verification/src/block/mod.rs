//! Block definitions and instances.
//!
//! * **Definition storage** — [`BlockTable`] holds named block definitions
//!   ([`BlockDef`]).
//! * **Instance component** — [`BlockRef`] marks an entity as an instance of
//!   a block definition.
//! * **Manager** — [`BlockManager`] is a thin owning wrapper around
//!   [`BlockTable`] with delegated CRUD methods.
//! * **Editor** — [`BlockEditorState`] tracks an in-place editing session.

pub mod definition;
pub mod editor;
pub mod explode;
pub mod insert;

use vstd::prelude::*;
use vstd::string::*;

pub use definition::{BlockDef, BlockError, BlockId, BlockTable};
pub use definition::{has_block_id, has_block_name, block_index_of_id, block_index_of_name};
pub use editor::BlockEditorState;
pub use insert::{BlockInsert, BlockRef};

verus! {

/// Thin owning wrapper around [`BlockTable`].
///
/// Gives direct access to the underlying table via the `table` field and
/// delegates common CRUD operations.
#[derive(Debug, Clone)]
pub struct BlockManager<P, E, B> {
    /// The underlying block definition table.
    pub table: BlockTable<P, E, B>,
}

impl<P, E, B> BlockManager<P, E, B> {
    /// Create a new `BlockManager` with an empty block table.
    pub fn new() -> (m: Self)
        ensures
            m.table.wf(),
            m.table.view() == Seq::<(BlockId, BlockDef<P, E, B>)>::empty(),
            m.table.next_id() == 0,
    {
        BlockManager { table: BlockTable::new() }
    }

    /// Insert a block definition, stored with `bounds`.  See [`BlockTable::insert`].
    pub fn insert(&mut self, def: BlockDef<P, E, B>, bounds: B) -> (r: Result<BlockId, BlockError>)
        requires
            old(self).table.wf(),
            old(self).table.next_id() < u32::MAX,
        ensures
            final(self).table.wf(),
            r is Err <==> has_block_name(old(self).table.view(), def.name@),
            match r {
                Ok(id) => {
                    &&& id == BlockId(old(self).table.next_id())
                    &&& final(self).table.view() == old(self).table.view().push((id, BlockDef { bounds, ..def }))
                    &&& final(self).table.next_id() == old(self).table.next_id() + 1
                },
                Err(e) => {
                    &&& e == BlockError::NameExists
                    &&& final(self).table.view() == old(self).table.view()
                    &&& final(self).table.next_id() == old(self).table.next_id()
                },
            },
    {
        self.table.insert(def, bounds)
    }

    /// Look up a block definition by ID.  See [`BlockTable::get`].
    pub fn get(&self, id: BlockId) -> (r: Option<&BlockDef<P, E, B>>)
        requires
            self.table.wf(),
        ensures
            r is Some <==> has_block_id(self.table.view(), id),
            r matches Some(d) ==> *d == self.table.view()[block_index_of_id(self.table.view(), id)].1,
    {
        self.table.get(id)
    }

    /// Mutably borrow a block definition by ID.  See [`BlockTable::get_mut`].
    pub fn get_mut(&mut self, id: BlockId) -> (r: Option<&mut BlockDef<P, E, B>>)
        requires
            old(self).table.wf(),
        ensures
            r is Some <==> has_block_id(old(self).table.view(), id),
            final(self).table.next_id() == old(self).table.next_id(),
            match r {
                Some(d) => {
                    let i = block_index_of_id(old(self).table.view(), id);
                    &&& *d == old(self).table.view()[i].1
                    &&& final(self).table.view() == old(self).table.view().update(i, (id, *final(d)))
                },
                None => final(self).table.view() == old(self).table.view(),
            },
    {
        self.table.get_mut(id)
    }

    /// Remove a block definition by ID.  See [`BlockTable::delete`].
    pub fn delete(&mut self, id: BlockId) -> (r: Result<(), BlockError>)
        requires
            old(self).table.wf(),
        ensures
            final(self).table.wf(),
            final(self).table.next_id() == old(self).table.next_id(),
            r is Ok <==> has_block_id(old(self).table.view(), id),
            r is Ok ==> final(self).table.view()
                == old(self).table.view().remove(block_index_of_id(old(self).table.view(), id)),
            r is Err ==> r == Err::<(), BlockError>(BlockError::BlockNotFound)
                && final(self).table.view() == old(self).table.view(),
    {
        self.table.delete(id)
    }

    /// Rename a block definition.  See [`BlockTable::rename`].
    pub fn rename(&mut self, id: BlockId, new_name: String) -> (r: Result<(), BlockError>)
        requires
            old(self).table.wf(),
        ensures
            final(self).table.wf(),
            final(self).table.next_id() == old(self).table.next_id(),
            !has_block_id(old(self).table.view(), id) ==> r == Err::<(), BlockError>(BlockError::BlockNotFound),
            has_block_id(old(self).table.view(), id) ==> {
                let i = block_index_of_id(old(self).table.view(), id);
                let d = old(self).table.view()[i].1;
                if d.name@ == new_name@ {
                    r is Ok && final(self).table.view() == old(self).table.view()
                } else if has_block_name(old(self).table.view(), new_name@) {
                    r == Err::<(), BlockError>(BlockError::NameExists)
                } else {
                    &&& r is Ok
                    &&& final(self).table.view().len() == old(self).table.view().len()
                    &&& forall|k: int| 0 <= k < old(self).table.view().len() && k != i
                        ==> #[trigger] final(self).table.view()[k] == old(self).table.view()[k]
                    &&& final(self).table.view()[i].0 == id
                    &&& final(self).table.view()[i].1 == (BlockDef { name: new_name, ..d })
                }
            },
            r is Err ==> final(self).table.view() == old(self).table.view(),
    {
        self.table.rename(id, new_name)
    }

    /// Look up a block definition by name.  See [`BlockTable::get_by_name`].
    pub fn get_by_name(&self, name: &str) -> (r: Option<&BlockDef<P, E, B>>)
        requires
            self.table.wf(),
        ensures
            r is Some <==> has_block_name(self.table.view(), name@),
            r matches Some(d) ==> *d == self.table.view()[block_index_of_name(self.table.view(), name@)].1,
    {
        self.table.get_by_name(name)
    }

    /// Check whether a block with the given name exists.
    pub fn contains_name(&self, name: &str) -> (b: bool)
        ensures
            b == has_block_name(self.table.view(), name@),
    {
        self.table.contains_name(name)
    }

    /// Number of block definitions.
    pub fn len(&self) -> (n: usize)
        ensures
            n == self.table.view().len(),
    {
        self.table.len()
    }

    /// Returns `true` if the manager contains no block definitions.
    pub fn is_empty(&self) -> (b: bool)
        ensures
            b == (self.table.view().len() == 0),
    {
        self.table.is_empty()
    }
}

impl<P, E, B> Default for BlockManager<P, E, B> {
    fn default() -> (m: Self)
        ensures
            m.table.wf(),
            m.table.view() == Seq::<(BlockId, BlockDef<P, E, B>)>::empty(),
            m.table.next_id() == 0,
    {
        BlockManager::new()
    }
}

} // verus!
