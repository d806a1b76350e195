//! Block editor state machine for in-place block editing (BEDIT / REFEDIT).
//!
//! [`BlockEditorState`] manages entering, saving, and cancelling
//! block-editing sessions.  During a session the caller applies its edits to
//! the block definition in the [`BlockTable`]; [`cancel`](BlockEditorState::cancel)
//! puts the entities captured at [`enter`](BlockEditorState::enter) back.
//!
//! ```text
//!            enter(id, def)
//!     ┌─────────────────────────┐
//!     v                         │
//!  Inactive ──► Active ───► save(table, bounds) ──► Inactive
//!                   │
//!                   └──► cancel(table, bounds) ──► Inactive
//!                                      (entities restored)
//! ```
//!
//! Only one block can be edited at a time.  Calling `enter()` while already
//! active overwrites the previous session state.

use vstd::prelude::*;
use super::definition::{BlockDef, BlockId, BlockTable, has_block_id, block_index_of_id};

verus! {

/// State machine for in-place block editing.
#[derive(Debug, Clone)]
pub struct BlockEditorState<E> {
    /// Whether an editing session is active.
    pub active: bool,
    /// The block being edited.
    pub editing_block: BlockId,
    /// Snapshot of the block definition's entities taken at `enter()` time.
    /// Used by `cancel()` to restore the original state.
    pub original_entities: Vec<E>,
}

impl<E> BlockEditorState<E> {
    /// Create a new idle editor state.
    pub fn new() -> (s: Self)
        ensures
            !s.active,
            s.editing_block == BlockId(0),
            s.original_entities@ == Seq::<E>::empty(),
    {
        BlockEditorState { active: false, editing_block: BlockId(0), original_entities: Vec::new() }
    }

    /// Enter editing mode for the given block definition, taking a snapshot
    /// of its entities so that [`cancel`](Self::cancel) can restore them.
    pub fn enter<P, B>(&mut self, block_id: BlockId, def: &BlockDef<P, E, B>)
        where E: Clone,
        ensures
            final(self).active,
            final(self).editing_block == block_id,
            final(self).original_entities@.len() == def.entities@.len(),
            forall|i: int| 0 <= i < def.entities@.len()
                ==> cloned::<E>(def.entities@[i], #[trigger] final(self).original_entities@[i]),
    {
        self.active = true;
        self.editing_block = block_id;
        self.original_entities = def.entities.clone();
    }

    /// End the editing session, keeping the edits: the edited block's
    /// bounds become `bounds` (the caller computes them from the edited
    /// entities), the editor becomes inactive, and the result is the
    /// block's id.  The caller records the edit as an undoable transaction.
    pub fn save<P, B>(&mut self, table: &mut BlockTable<P, E, B>, bounds: B) -> (id: BlockId)
        requires
            old(table).wf(),
            has_block_id(old(table).view(), old(self).editing_block),
        ensures
            !final(self).active,
            id == old(self).editing_block,
            final(self).editing_block == old(self).editing_block,
            final(self).original_entities@ == old(self).original_entities@,
            final(table).wf(),
            final(table).next_id() == old(table).next_id(),
            ({
                let i = block_index_of_id(old(table).view(), id);
                let d = old(table).view()[i].1;
                final(table).view() == old(table).view().update(i, (id, BlockDef { bounds, ..d }))
            }),
    {
        let id = self.editing_block;
        let ghost before = table.view();
        match table.get_mut(id) {
            Some(def) => {
                def.bounds = bounds;
            },
            None => {},
        }
        proof {
            let i = block_index_of_id(before, id);
            assert(table.view() =~= before.update(i, (id, BlockDef { bounds, ..before[i].1 })));
        }
        self.active = false;
        id
    }

    /// Cancel the editing session: the edited block's entities are replaced
    /// with the snapshot taken at [`enter`](Self::enter), its bounds become
    /// `bounds` (the caller computes them from the snapshot), and the editor
    /// becomes inactive.
    ///
    /// Returns the id of the restored block, or `None` (changing no block)
    /// if that block is no longer in the table.
    pub fn cancel<P, B>(&mut self, table: &mut BlockTable<P, E, B>, bounds: B) -> (restored: Option<BlockId>)
        where E: Clone,
        requires
            old(table).wf(),
        ensures
            !final(self).active,
            final(self).editing_block == old(self).editing_block,
            final(self).original_entities@ == old(self).original_entities@,
            final(table).next_id() == old(table).next_id(),
            restored is Some <==> has_block_id(old(table).view(), old(self).editing_block),
            match restored {
                Some(id) => {
                    let i = block_index_of_id(old(table).view(), id);
                    let d = old(table).view()[i].1;
                    let n = final(table).view()[i].1;
                    &&& id == old(self).editing_block
                    &&& final(table).view().len() == old(table).view().len()
                    &&& forall|k: int| 0 <= k < old(table).view().len() && k != i
                        ==> #[trigger] final(table).view()[k] == old(table).view()[k]
                    &&& final(table).view()[i].0 == id
                    &&& n.name == d.name && n.base_point == d.base_point && n.bounds == bounds
                    &&& n.entities@.len() == old(self).original_entities@.len()
                    &&& forall|j: int| 0 <= j < n.entities@.len()
                        ==> cloned::<E>(old(self).original_entities@[j], #[trigger] n.entities@[j])
                },
                None => final(table).view() == old(table).view(),
            },
            final(table).wf(),
    {
        let id = self.editing_block;
        let restored = match table.get_mut(id) {
            Some(def) => {
                def.entities = self.original_entities.clone();
                def.bounds = bounds;
                Some(id)
            },
            None => None,
        };
        self.active = false;
        restored
    }

    /// Returns the block ID being edited if a session is active.
    pub fn active_block_id(&self) -> (r: Option<BlockId>)
        ensures
            r == (if self.active { Some(self.editing_block) } else { None }),
    {
        if self.active {
            Some(self.editing_block)
        } else {
            None
        }
    }

    /// Returns `true` if an editing session is currently active.
    pub fn is_active(&self) -> (b: bool)
        ensures
            b == self.active,
    {
        self.active
    }

    /// Deactivate the editor without modifying the block table.
    pub fn deactivate(&mut self)
        ensures
            !final(self).active,
            final(self).editing_block == old(self).editing_block,
            final(self).original_entities@ == old(self).original_entities@,
    {
        self.active = false;
    }
}

impl<E> Default for BlockEditorState<E> {
    fn default() -> (s: Self)
        ensures
            !s.active,
            s.editing_block == BlockId(0),
            s.original_entities@ == Seq::<E>::empty(),
    {
        BlockEditorState::new()
    }
}

} // verus!
