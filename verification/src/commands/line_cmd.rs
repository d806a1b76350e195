//! LINE command: accumulates points, then commits all segments at once.
//!
//! 1. Points are accumulated in `pending_points` ("U" removes the last one).
//! 2. On `Confirm` with at least two points, the segments between
//!    consecutive points are handed to the caller to spawn.
//! 3. On `Cancel`, the buffer is dropped (nothing spawned, nothing to clean).

use vstd::prelude::*;
use vstd::string::*;
use super::{PreviewEntity, CommandInput, Outcome, consecutive_pairs, pairs_of, is_undo_text, text_is_undo};
use super::labels::{counted_label, make_counted_label};

verus! {

/// The segments a confirmed LINE command spawns, and the label of its
/// transaction.
#[derive(Debug)]
pub struct LineCommit<P> {
    /// `(start, end)` of each segment, in order.
    pub segments: Vec<(P, P)>,
    /// "Line (n segment)" / "Line (n segments)".
    pub label: String,
}

/// Interactive LINE command.
#[derive(Debug, Clone)]
pub struct LineCommand<P> {
    /// Accumulated vertices (not yet in the drawing).
    pub pending_points: Vec<P>,
}

impl<P: Copy> LineCommand<P> {
    /// Create the command with no points.
    pub fn new() -> (c: Self)
        ensures
            c.pending_points@ == Seq::<P>::empty(),
    {
        LineCommand { pending_points: Vec::new() }
    }

    /// Command name used on the command line.
    pub fn name(&self) -> (n: &'static str)
        ensures
            n@ == "LINE"@,
    {
        "LINE"
    }

    /// Prompt for the current step.
    pub fn prompt(&self) -> (p: String)
        ensures
            p@ == (if self.pending_points@.len() == 0 {
                "Specify first point:"@
            } else {
                "Specify next point or [Undo]:"@
            }),
    {
        if self.pending_points.len() == 0 {
            String::from_str("Specify first point:")
        } else {
            String::from_str("Specify next point or [Undo]:")
        }
    }

    /// Points still needed before the command can complete.
    pub fn steps_remaining(&self) -> (n: usize)
        ensures
            n == (if self.pending_points@.len() < 2 { 2 - self.pending_points@.len() } else { 0 }),
    {
        if self.pending_points.len() < 2 {
            2 - self.pending_points.len()
        } else {
            0
        }
    }

    /// Process an input.
    ///
    /// A point is buffered; "U" drops the last buffered point; `Confirm`
    /// with at least two points finishes with the segments between
    /// consecutive points; `Cancel` clears the buffer; anything else is an
    /// error.
    pub fn on_input<S>(&mut self, input: CommandInput<P, S>) -> (r: Outcome<LineCommit<P>>)
        ensures
            match input {
                CommandInput::Point(p) => {
                    &&& r is Continue
                    &&& final(self).pending_points@ == old(self).pending_points@.push(p)
                },
                CommandInput::Text(t) if is_undo_text(t@) => {
                    &&& r is Continue
                    &&& final(self).pending_points@ == if old(self).pending_points@.len() > 0 {
                        old(self).pending_points@.drop_last()
                    } else {
                        old(self).pending_points@
                    }
                },
                CommandInput::Confirm if old(self).pending_points@.len() >= 2 => {
                    &&& r matches Outcome::Done(commit) && {
                        &&& commit.segments@ == consecutive_pairs(old(self).pending_points@)
                        &&& commit.label@ == counted_label("Line"@, (old(self).pending_points@.len() - 1) as nat, "segment"@)
                    }
                    &&& final(self).pending_points@ == old(self).pending_points@
                },
                CommandInput::Cancel => {
                    &&& r is Cancelled
                    &&& final(self).pending_points@ == Seq::<P>::empty()
                },
                _ => {
                    &&& r matches Outcome::Error(m) && m@ == "Invalid input. Specify a point."@
                    &&& final(self).pending_points@ == old(self).pending_points@
                },
            },
    {
        match input {
            CommandInput::Point(p) => {
                self.pending_points.push(p);
                Outcome::Continue
            },
            CommandInput::Text(t) => {
                if text_is_undo(t.as_str()) {
                    let _ = self.pending_points.pop();
                    Outcome::Continue
                } else {
                    Outcome::Error(String::from_str("Invalid input. Specify a point."))
                }
            },
            CommandInput::Confirm => {
                if self.pending_points.len() >= 2 {
                    let segments = pairs_of(&self.pending_points);
                    let label = make_counted_label("Line", self.pending_points.len() - 1, "segment");
                    Outcome::Done(LineCommit { segments, label })
                } else {
                    Outcome::Error(String::from_str("Invalid input. Specify a point."))
                }
            },
            CommandInput::Cancel => {
                self.on_cancel();
                Outcome::Cancelled
            },
            _ => Outcome::Error(String::from_str("Invalid input. Specify a point.")),
        }
    }

    /// Preview geometry drawn while the command runs: none.
    pub fn preview<Q>(&self) -> (v: Vec<PreviewEntity<Q>>)
        ensures
            v@.len() == 0,
    {
        Vec::new()
    }

    /// Drop the buffered points.
    pub fn on_cancel(&mut self)
        ensures
            final(self).pending_points@ == Seq::<P>::empty(),
    {
        self.pending_points.clear();
    }
}

impl<P: Copy> Default for LineCommand<P> {
    fn default() -> (c: Self)
        ensures
            c.pending_points@ == Seq::<P>::empty(),
    {
        LineCommand::new()
    }
}

/// Picking a point and then undoing it ("U") gives back the buffer as it
/// was.
pub proof fn law_point_then_undo_restores<P>(points: Seq<P>, p: P)
    ensures
        points.push(p).len() > 0,
        points.push(p).drop_last() == points,
{
    assert(points.push(p).drop_last() =~= points);
}

} // verus!
