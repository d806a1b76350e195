//! The order and the kind of the world steps that replay a transaction.
//!
//! A transaction's operations change the entity world: an entity was
//! spawned, an entity was despawned, or a component of an entity was set.
//! Undo replays them backwards, each reversed; redo replays them forwards.
//! The library decides the steps; the caller carries each one out with the
//! operation's data (which the library does not read) and records every
//! re-spawned handle with [`History::record_respawn`](super::History::record_respawn).

use vstd::prelude::*;
use crate::ecs::EntityId;

verus! {

/// What an operation did, as far as replaying it is concerned.
#[derive(Debug, Clone, Copy, PartialEq, Eq, Structural)]
pub enum OpKind {
    /// The entity was spawned with the operation's data.
    Spawn(EntityId),
    /// The entity was despawned; the operation holds the data it had.
    Despawn(EntityId),
    /// A component of the entity was set; the operation holds the old and
    /// the new value.
    Write(EntityId),
    /// The change lies outside the entity world: replaying it changes
    /// nothing there.
    Table,
}

/// One step of a replay; `op` is the position of the operation in the
/// transaction.
#[derive(Debug, Clone, Copy, PartialEq, Eq, Structural)]
pub enum ReplayStep {
    /// Despawn `entity`.
    Despawn { op: usize, entity: EntityId },
    /// Spawn the operation's data anew; the new handle replaces `original`.
    Respawn { op: usize, original: EntityId },
    /// Write the operation's old value to `entity`.
    WriteOld { op: usize, entity: EntityId },
    /// Write the operation's new value to `entity`.
    WriteNew { op: usize, entity: EntityId },
    /// Nothing to do on the world.
    Skip { op: usize },
}

/// The step that undoes operation `i` of kind `k`.
pub open spec fn undo_step_of(k: OpKind, i: usize) -> ReplayStep {
    match k {
        OpKind::Spawn(e) => ReplayStep::Despawn { op: i, entity: e },
        OpKind::Despawn(e) => ReplayStep::Respawn { op: i, original: e },
        OpKind::Write(e) => ReplayStep::WriteOld { op: i, entity: e },
        OpKind::Table => ReplayStep::Skip { op: i },
    }
}

/// The step that redoes operation `i` of kind `k`.
pub open spec fn redo_step_of(k: OpKind, i: usize) -> ReplayStep {
    match k {
        OpKind::Spawn(e) => ReplayStep::Respawn { op: i, original: e },
        OpKind::Despawn(e) => ReplayStep::Despawn { op: i, entity: e },
        OpKind::Write(e) => ReplayStep::WriteNew { op: i, entity: e },
        OpKind::Table => ReplayStep::Skip { op: i },
    }
}

/// The steps that undo operations of the kinds `kinds`: the last
/// operation first.
pub open spec fn undo_plan_spec(kinds: Seq<OpKind>) -> Seq<ReplayStep> {
    Seq::new(kinds.len(), |j: int| undo_step_of(kinds[kinds.len() - 1 - j], (kinds.len() - 1 - j) as usize))
}

/// The steps that redo operations of the kinds `kinds`: in their order.
pub open spec fn redo_plan_spec(kinds: Seq<OpKind>) -> Seq<ReplayStep> {
    Seq::new(kinds.len(), |j: int| redo_step_of(kinds[j], j as usize))
}

/// The step that reverses `s`.
pub open spec fn inverse(s: ReplayStep) -> ReplayStep {
    match s {
        ReplayStep::Despawn { op, entity } => ReplayStep::Respawn { op, original: entity },
        ReplayStep::Respawn { op, original } => ReplayStep::Despawn { op, entity: original },
        ReplayStep::WriteOld { op, entity } => ReplayStep::WriteNew { op, entity },
        ReplayStep::WriteNew { op, entity } => ReplayStep::WriteOld { op, entity },
        ReplayStep::Skip { op } => ReplayStep::Skip { op },
    }
}

/// The steps that undo a transaction whose operations are of the kinds
/// `kinds`: each operation reversed, the last one first.
pub fn undo_plan(kinds: &Vec<OpKind>) -> (r: Vec<ReplayStep>)
    ensures
        r@ == undo_plan_spec(kinds@),
{
    let n = kinds.len();
    let mut r: Vec<ReplayStep> = Vec::new();
    let mut j: usize = 0;
    while j < n
        invariant
            n == kinds@.len(),
            j <= n,
            r@.len() == j,
            forall|k: int| 0 <= k < j ==> #[trigger] r@[k] == undo_step_of(kinds@[n - 1 - k], (n - 1 - k) as usize),
        decreases n - j,
    {
        let i = n - 1 - j;
        let step = match kinds[i] {
            OpKind::Spawn(e) => ReplayStep::Despawn { op: i, entity: e },
            OpKind::Despawn(e) => ReplayStep::Respawn { op: i, original: e },
            OpKind::Write(e) => ReplayStep::WriteOld { op: i, entity: e },
            OpKind::Table => ReplayStep::Skip { op: i },
        };
        r.push(step);
        j = j + 1;
    }
    assert(r@ =~= undo_plan_spec(kinds@));
    r
}

/// The steps that redo a transaction whose operations are of the kinds
/// `kinds`: each operation done again, in order.
pub fn redo_plan(kinds: &Vec<OpKind>) -> (r: Vec<ReplayStep>)
    ensures
        r@ == redo_plan_spec(kinds@),
{
    let n = kinds.len();
    let mut r: Vec<ReplayStep> = Vec::new();
    let mut i: usize = 0;
    while i < n
        invariant
            n == kinds@.len(),
            i <= n,
            r@.len() == i,
            forall|k: int| 0 <= k < i ==> #[trigger] r@[k] == redo_step_of(kinds@[k], k as usize),
        decreases n - i,
    {
        let step = match kinds[i] {
            OpKind::Spawn(e) => ReplayStep::Respawn { op: i, original: e },
            OpKind::Despawn(e) => ReplayStep::Despawn { op: i, entity: e },
            OpKind::Write(e) => ReplayStep::WriteNew { op: i, entity: e },
            OpKind::Table => ReplayStep::Skip { op: i },
        };
        r.push(step);
        i = i + 1;
    }
    assert(r@ =~= redo_plan_spec(kinds@));
    r
}

/// Undo replays the redo steps backwards, each one reversed; and reversing
/// a step twice gives it back.
pub proof fn law_undo_reverses_redo(kinds: Seq<OpKind>)
    ensures
        undo_plan_spec(kinds) == redo_plan_spec(kinds).reverse().map_values(|s: ReplayStep| inverse(s)),
        forall|s: ReplayStep| #[trigger] inverse(inverse(s)) == s,
{
    assert(undo_plan_spec(kinds) =~= redo_plan_spec(kinds).reverse().map_values(|s: ReplayStep| inverse(s)));
}

} // verus!
