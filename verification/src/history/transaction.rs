//! Transaction type.
//!
//! A [`Transaction`] bundles a list of operations with a human-readable
//! label (e.g. "Move 3 entities").  It is pushed onto the history stack on
//! command completion and replayed in reverse on undo.

use vstd::prelude::*;
use vstd::string::*;

verus! {

/// A named transaction containing a list of atomic undo/redo operations.
#[derive(Debug, Clone)]
pub struct Transaction<Op> {
    /// Human-readable description (e.g. "Erase 2 entities").
    pub label: String,
    /// Ordered list of atomic operations.
    pub ops: Vec<Op>,
}

impl<Op> Transaction<Op> {
    /// Create a new empty transaction with the given label.
    pub fn new(label: &str) -> (tx: Self)
        ensures
            tx.label@ == label@,
            tx.ops@ == Seq::<Op>::empty(),
    {
        Transaction { label: label.to_owned(), ops: Vec::new() }
    }

    /// Append an atomic operation to this transaction.
    pub fn push(&mut self, op: Op)
        ensures
            final(self).label == old(self).label,
            final(self).ops@ == old(self).ops@.push(op),
    {
        self.ops.push(op);
    }

    /// Returns `true` if this transaction contains no operations.
    pub fn is_empty(&self) -> (b: bool)
        ensures
            b == (self.ops@.len() == 0),
    {
        self.ops.len() == 0
    }
}

} // verus!
