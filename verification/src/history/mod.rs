//! Undo/redo history.
//!
//! A delta-based command journal with configurable depth.  Each
//! [`Transaction`] is a list of operations.  Undo hands back the most recent
//! transaction for its operations to be replayed in reverse; redo hands back
//! the most recently undone one for forward replay.  Entity handle
//! remapping after re-spawns is collected in an [`EntityMapping`].

pub mod replay;
pub mod transaction;

use std::collections::HashMap;
use std::collections::VecDeque;
use vstd::prelude::*;
use vstd::string::*;
use crate::ecs::EntityId;

pub use self::transaction::Transaction;

verus! {

// ---------------------------------------------------------------------------
// EntityMapping
// ---------------------------------------------------------------------------

/// Maps old entity handles to new ones after entity re-spawn during undo/redo.
///
/// When an undo operation must re-spawn a despawned entity, the new entity
/// receives a different handle from the original.  `EntityMapping` records
/// these `old → new` mappings so that consumers (selection, spatial index)
/// can fix up their stale handles.
#[derive(Debug, Clone)]
pub struct EntityMapping {
    map: HashMap<u64, u64>,
}

/// Where `mapping` sends `e`: its recorded replacement, or `e` itself.
pub open spec fn mapped(mapping: Map<u64, u64>, e: EntityId) -> EntityId {
    if mapping.contains_key(e.0) {
        EntityId(mapping[e.0])
    } else {
        e
    }
}

impl EntityMapping {
    /// The recorded replacements, keyed by the bits of the old handle.
    pub closed spec fn view(&self) -> Map<u64, u64> {
        self.map@
    }

    /// Create an empty mapping.
    pub fn new() -> (m: Self)
        ensures
            m.view() == Map::<u64, u64>::empty(),
    {
        EntityMapping { map: HashMap::new() }
    }

    /// Return the remapped handle if a mapping for `old` exists, otherwise
    /// return `old` unchanged.
    pub fn map(&self, old: EntityId) -> (e: EntityId)
        ensures
            e == mapped(self.view(), old),
    {
        broadcast use vstd::std_specs::hash::group_hash_axioms;
        match self.map.get(&old.0) {
            Some(n) => EntityId(*n),
            None => old,
        }
    }

    /// Record that `new` is the replacement handle for the original `old`.
    pub fn record_spawn(&mut self, old_entity: EntityId, new_entity: EntityId)
        ensures
            final(self).view() == old(self).view().insert(old_entity.0, new_entity.0),
    {
        broadcast use vstd::std_specs::hash::group_hash_axioms;
        self.map.insert(old_entity.0, new_entity.0);
    }

    /// Remove all mappings.
    pub fn clear(&mut self)
        ensures
            final(self).view() == Map::<u64, u64>::empty(),
    {
        broadcast use vstd::std_specs::hash::group_hash_axioms;
        self.map.clear();
    }

    /// Returns `true` if no mappings have been recorded.
    pub fn is_empty(&self) -> (b: bool)
        ensures
            b == (self.view().dom().len() == 0),
    {
        broadcast use vstd::std_specs::hash::group_hash_axioms;
        self.map.is_empty()
    }
}

impl Default for EntityMapping {
    fn default() -> (m: Self)
        ensures
            m.view() == Map::<u64, u64>::empty(),
    {
        EntityMapping::new()
    }
}

// ---------------------------------------------------------------------------
// History
// ---------------------------------------------------------------------------

/// The newest `max` transactions of `s` (all of them when `max` is `None`
/// or `s` is short enough).
pub open spec fn keep_newest<T>(s: Seq<T>, max: Option<usize>) -> Seq<T> {
    match max {
        Some(m) => if s.len() > m {
            s.skip(s.len() - m)
        } else {
            s
        },
        None => s,
    }
}

/// The two stacks after an undo: the newest transaction of `undo` moves
/// onto `redo` (nothing changes when `undo` is empty).
pub open spec fn undo_step<T>(undo: Seq<T>, redo: Seq<T>) -> (Seq<T>, Seq<T>) {
    if undo.len() == 0 {
        (undo, redo)
    } else {
        (undo.drop_last(), redo.push(undo.last()))
    }
}

/// The two stacks after a redo: the newest transaction of `redo` moves back
/// onto `undo` (nothing changes when `redo` is empty).
pub open spec fn redo_step<T>(undo: Seq<T>, redo: Seq<T>) -> (Seq<T>, Seq<T>) {
    if redo.len() == 0 {
        (undo, redo)
    } else {
        (undo.push(redo.last()), redo.drop_last())
    }
}

/// A delta-based command journal supporting undo and redo.
///
/// History stores a stack of [`Transaction`]s.  Each undo moves the top
/// transaction to the redo stack (its operations are then replayed in
/// reverse to restore the prior state); each redo moves the top of the redo
/// stack back (and its operations are replayed forward).
///
/// Pushing a new transaction clears the redo stack (standard branching
/// semantics — a new action invalidates the redo chain).
///
/// `max_depth` limits how many undo steps are retained (default 1000).
/// When the limit is exceeded the oldest transactions are dropped from the
/// front of the undo stack.
pub struct History<Op> {
    /// Stack of past transactions (newest at back).
    pub undo_stack: VecDeque<Transaction<Op>>,
    /// Stack of undone transactions available for redo (newest at back).
    pub redo_stack: VecDeque<Transaction<Op>>,
    /// Maximum number of undo steps.  `None` = unlimited.
    pub max_depth: Option<usize>,
    /// Accumulated entity-handle remappings from re-spawns during undo/redo.
    pub entity_map: EntityMapping,
}

impl<Op> History<Op> {
    /// The accumulated entity-handle remappings.
    pub open spec fn mapping(&self) -> Map<u64, u64> {
        self.entity_map.view()
    }

    /// The journal's invariant: together the two stacks hold no more than
    /// `max_depth` transactions.
    pub open spec fn wf(&self) -> bool {
        self.max_depth matches Some(m) ==> self.undo_stack@.len() + self.redo_stack@.len() <= m
    }

    /// Create an empty history with a default maximum depth of 1000.
    pub fn new() -> (h: Self)
        ensures
            h.wf(),
            h.undo_stack@ == Seq::<Transaction<Op>>::empty(),
            h.redo_stack@ == Seq::<Transaction<Op>>::empty(),
            h.max_depth == Some(1000usize),
            h.mapping() == Map::<u64, u64>::empty(),
    {
        History {
            undo_stack: VecDeque::new(),
            redo_stack: VecDeque::new(),
            max_depth: Some(1000),
            entity_map: EntityMapping::new(),
        }
    }

    /// Create an empty history with the given maximum depth (`None` for
    /// unlimited depth).
    pub fn with_max_depth(max_depth: Option<usize>) -> (h: Self)
        ensures
            h.wf(),
            h.undo_stack@ == Seq::<Transaction<Op>>::empty(),
            h.redo_stack@ == Seq::<Transaction<Op>>::empty(),
            h.max_depth == max_depth,
            h.mapping() == Map::<u64, u64>::empty(),
    {
        History {
            undo_stack: VecDeque::new(),
            redo_stack: VecDeque::new(),
            max_depth,
            entity_map: EntityMapping::new(),
        }
    }

    /// Push a new transaction onto the undo stack.
    ///
    /// Clears the redo stack and enforces `max_depth` by discarding the
    /// oldest transactions while the limit is exceeded.
    pub fn push(&mut self, tx: Transaction<Op>)
        ensures
            final(self).wf(),
            final(self).redo_stack@ == Seq::<Transaction<Op>>::empty(),
            final(self).undo_stack@ == keep_newest(old(self).undo_stack@.push(tx), old(self).max_depth),
            final(self).max_depth == old(self).max_depth,
            final(self).mapping() == old(self).mapping(),
    {
        self.redo_stack.clear();
        self.undo_stack.push_back(tx);
        let ghost full = self.undo_stack@;
        if let Some(max) = self.max_depth {
            while self.undo_stack.len() > max
                invariant
                    self.redo_stack@ == Seq::<Transaction<Op>>::empty(),
                    self.max_depth == Some(max),
                    self.entity_map == old(self).entity_map,
                    full.len() >= self.undo_stack@.len(),
                    self.undo_stack@ == full.skip(full.len() - self.undo_stack@.len()),
                    full.len() > max ==> self.undo_stack@.len() >= max,
                    full.len() <= max ==> self.undo_stack@ == full,
                decreases self.undo_stack@.len(),
            {
                let ghost before = self.undo_stack@;
                let _ = self.undo_stack.pop_front();
                assert(self.undo_stack@ =~= full.skip(full.len() - self.undo_stack@.len()));
            }
            assert(self.undo_stack@ =~= keep_newest(full, Some(max)));
        } else {
            assert(self.undo_stack@ =~= keep_newest(full, None));
        }
    }

    /// Record `tx` unless it holds no operation (an explode of an empty
    /// block changes nothing worth undoing).  Returns whether it was pushed.
    pub fn push_unless_empty(&mut self, tx: Transaction<Op>) -> (pushed: bool)
        ensures
            pushed == (tx.ops@.len() > 0),
            final(self).max_depth == old(self).max_depth,
            final(self).mapping() == old(self).mapping(),
            pushed ==> {
                &&& final(self).wf()
                &&& final(self).redo_stack@ == Seq::<Transaction<Op>>::empty()
                &&& final(self).undo_stack@ == keep_newest(old(self).undo_stack@.push(tx), old(self).max_depth)
            },
            !pushed ==> {
                &&& final(self).undo_stack@ == old(self).undo_stack@
                &&& final(self).redo_stack@ == old(self).redo_stack@
            },
    {
        if tx.is_empty() {
            false
        } else {
            self.push(tx);
            true
        }
    }

    /// Move the most recent transaction from the undo stack to the redo
    /// stack and return its label, or `None` if there is nothing to undo.
    ///
    /// The caller replays the moved transaction (now the top of the redo
    /// stack) in reverse on the entity world, recording any re-spawned
    /// handles with [`record_respawn`](Self::record_respawn).
    pub fn undo(&mut self) -> (label: Option<String>)
        ensures
            final(self).max_depth == old(self).max_depth,
            final(self).mapping() == old(self).mapping(),
            old(self).wf() ==> final(self).wf(),
            (final(self).undo_stack@, final(self).redo_stack@)
                == undo_step(old(self).undo_stack@, old(self).redo_stack@),
            old(self).undo_stack@.len() == 0 ==> label is None,
            old(self).undo_stack@.len() > 0 ==> (label matches Some(l)
                && l@ == old(self).undo_stack@.last().label@),
    {
        match self.undo_stack.pop_back() {
            Some(tx) => {
                let label = tx.label.clone();
                self.redo_stack.push_back(tx);
                Some(label)
            },
            None => None,
        }
    }

    /// Move the most recently undone transaction back to the undo stack and
    /// return its label, or `None` if there is nothing to redo.
    ///
    /// The caller replays the moved transaction (now the top of the undo
    /// stack) forward on the entity world.
    pub fn redo(&mut self) -> (label: Option<String>)
        ensures
            final(self).max_depth == old(self).max_depth,
            final(self).mapping() == old(self).mapping(),
            old(self).wf() ==> final(self).wf(),
            (final(self).undo_stack@, final(self).redo_stack@)
                == redo_step(old(self).undo_stack@, old(self).redo_stack@),
            old(self).redo_stack@.len() == 0 ==> label is None,
            old(self).redo_stack@.len() > 0 ==> (label matches Some(l)
                && l@ == old(self).redo_stack@.last().label@),
    {
        match self.redo_stack.pop_back() {
            Some(tx) => {
                let label = tx.label.clone();
                self.undo_stack.push_back(tx);
                Some(label)
            },
            None => None,
        }
    }

    /// Record that replaying a transaction re-spawned the entity `old_entity`
    /// under the new handle `new_entity`.
    pub fn record_respawn(&mut self, old_entity: EntityId, new_entity: EntityId)
        ensures
            final(self).undo_stack@ == old(self).undo_stack@,
            final(self).redo_stack@ == old(self).redo_stack@,
            final(self).max_depth == old(self).max_depth,
            final(self).mapping() == old(self).mapping().insert(old_entity.0, new_entity.0),
    {
        self.entity_map.record_spawn(old_entity, new_entity);
    }

    /// Consume the accumulated entity mapping after an undo/redo cycle,
    /// leaving an empty one behind.
    pub fn take_entity_mapping(&mut self) -> (m: EntityMapping)
        ensures
            m.view() == old(self).mapping(),
            final(self).mapping() == Map::<u64, u64>::empty(),
            final(self).undo_stack@ == old(self).undo_stack@,
            final(self).redo_stack@ == old(self).redo_stack@,
            final(self).max_depth == old(self).max_depth,
    {
        let mut taken = EntityMapping::new();
        std::mem::swap(&mut taken, &mut self.entity_map);
        taken
    }

    /// Returns `true` if there are transactions that can be undone.
    pub fn can_undo(&self) -> (b: bool)
        ensures
            b == (self.undo_stack@.len() > 0),
    {
        self.undo_stack.len() > 0
    }

    /// Returns `true` if there are transactions that can be redone.
    pub fn can_redo(&self) -> (b: bool)
        ensures
            b == (self.redo_stack@.len() > 0),
    {
        self.redo_stack.len() > 0
    }

    /// Returns the label of the top (most recent) undo transaction, if any.
    pub fn undo_label(&self) -> (l: Option<&str>)
        ensures
            self.undo_stack@.len() == 0 ==> l is None,
            self.undo_stack@.len() > 0 ==> (l matches Some(s) && s@ == self.undo_stack@.last().label@),
    {
        let n = self.undo_stack.len();
        if n == 0 {
            None
        } else {
            Some(self.undo_stack[n - 1].label.as_str())
        }
    }

    /// Returns the label of the top (most recent) redo transaction, if any.
    pub fn redo_label(&self) -> (l: Option<&str>)
        ensures
            self.redo_stack@.len() == 0 ==> l is None,
            self.redo_stack@.len() > 0 ==> (l matches Some(s) && s@ == self.redo_stack@.last().label@),
    {
        let n = self.redo_stack.len();
        if n == 0 {
            None
        } else {
            Some(self.redo_stack[n - 1].label.as_str())
        }
    }
}

// ---------------------------------------------------------------------------
// Entity remapping
// ---------------------------------------------------------------------------

/// After `record_spawn(old, new)` the mapping sends `old` to `new` and every
/// other handle where it sent it before; an empty mapping sends every
/// handle to itself.
pub proof fn law_record_then_map(m: Map<u64, u64>, old_entity: EntityId, new_entity: EntityId, e: EntityId)
    ensures
        mapped(m.insert(old_entity.0, new_entity.0), old_entity) == new_entity,
        e != old_entity ==> mapped(m.insert(old_entity.0, new_entity.0), e) == mapped(m, e),
        mapped(Map::<u64, u64>::empty(), e) == e,
{
}

/// Remapping a selection with an empty mapping leaves it as it is.
pub proof fn law_empty_remapping_is_identity(selected: Seq<EntityId>)
    ensures
        selected.map_values(|e: EntityId| mapped(Map::<u64, u64>::empty(), e)) == selected,
{
    assert(selected.map_values(|e: EntityId| mapped(Map::<u64, u64>::empty(), e)) =~= selected);
}

/// Fix up the selection after an undo/redo cycle: every selected handle and
/// the primary handle go through `mapping` (re-spawned entities get their
/// new handles), and the spatial index is marked for a rebuild.
pub fn apply_entity_remapping(
    selected: &mut Vec<EntityId>,
    primary: &mut Option<EntityId>,
    spatial_dirty: &mut bool,
    mapping: &EntityMapping,
)
    ensures
        final(selected)@ == old(selected)@.map_values(|e: EntityId| mapped(mapping.view(), e)),
        *final(primary) == match *old(primary) {
            Some(p) => Some(mapped(mapping.view(), p)),
            None => None,
        },
        *final(spatial_dirty),
{
    let mut remapped: Vec<EntityId> = Vec::new();
    let mut i: usize = 0;
    while i < selected.len()
        invariant
            i <= selected@.len(),
            selected@ == old(selected)@,
            remapped@ == selected@.take(i as int).map_values(|e: EntityId| mapped(mapping.view(), e)),
        decreases selected@.len() - i,
    {
        let e = mapping.map(selected[i]);
        remapped.push(e);
        assert(selected@.take(i + 1).map_values(|e: EntityId| mapped(mapping.view(), e))
            =~= selected@.take(i as int).map_values(|e: EntityId| mapped(mapping.view(), e)).push(e));
        i = i + 1;
    }
    assert(selected@.take(selected@.len() as int) =~= selected@);
    *selected = remapped;
    if let Some(p) = *primary {
        *primary = Some(mapping.map(p));
    }
    *spatial_dirty = true;
}

/// Undo followed by redo puts both stacks back as they were, whenever
/// there was something to undo.
pub proof fn law_undo_then_redo_restores<T>(undo: Seq<T>, redo: Seq<T>)
    requires
        undo.len() > 0,
    ensures
        ({
            let (u1, r1) = undo_step(undo, redo);
            redo_step(u1, r1) == (undo, redo)
        }),
{
    assert(undo.drop_last().push(undo.last()) =~= undo);
    assert(redo.push(undo.last()).drop_last() =~= redo);
}

/// Redo followed by undo puts both stacks back as they were, whenever
/// there was something to redo.
pub proof fn law_redo_then_undo_restores<T>(undo: Seq<T>, redo: Seq<T>)
    requires
        redo.len() > 0,
    ensures
        ({
            let (u1, r1) = redo_step(undo, redo);
            undo_step(u1, r1) == (undo, redo)
        }),
{
    assert(redo.drop_last().push(redo.last()) =~= redo);
    assert(undo.push(redo.last()).drop_last() =~= undo);
}

/// Undo and redo move transactions between the stacks and lose none: the
/// two stacks hold as many transactions together after either as before.
pub proof fn law_undo_redo_keep_count<T>(undo: Seq<T>, redo: Seq<T>)
    ensures
        undo_step(undo, redo).0.len() + undo_step(undo, redo).1.len() == undo.len() + redo.len(),
        redo_step(undo, redo).0.len() + redo_step(undo, redo).1.len() == undo.len() + redo.len(),
{
}

/// After a push, the pushed transaction is the next one undo hands back
/// (unless the depth limit is zero, which keeps nothing).
pub proof fn law_push_then_undo_returns_pushed<T>(undo: Seq<T>, tx: T, max: Option<usize>)
    requires
        max != Some(0usize),
    ensures
        keep_newest(undo.push(tx), max).len() > 0,
        keep_newest(undo.push(tx), max).last() == tx,
{
}

/// The depth limit holds after every push: the undo stack never holds more
/// than `max_depth` transactions, and a push drops only the oldest ones.
pub proof fn law_push_respects_depth<T>(undo: Seq<T>, tx: T, m: usize)
    ensures
        keep_newest(undo.push(tx), Some(m)).len() <= m,
        keep_newest(undo.push(tx), Some(m)).len() == (if undo.len() + 1 <= m { undo.len() + 1 } else { m as nat }),
        forall|i: int| 0 <= i < keep_newest(undo.push(tx), Some(m)).len() ==>
            #[trigger] keep_newest(undo.push(tx), Some(m))[i]
                == undo.push(tx)[undo.len() + 1 - keep_newest(undo.push(tx), Some(m)).len() + i],
{
}

impl<Op> Default for History<Op> {
    fn default() -> (h: Self)
        ensures
            h.wf(),
            h.undo_stack@ == Seq::<Transaction<Op>>::empty(),
            h.redo_stack@ == Seq::<Transaction<Op>>::empty(),
            h.max_depth == Some(1000usize),
            h.mapping() == Map::<u64, u64>::empty(),
    {
        History::new()
    }
}

} // verus!
