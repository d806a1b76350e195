//! Command system: the command-line grammar, the command state, and the
//! decision logic of the interactive commands.
//!
//! Commands are generic over the geometry types of the drawing: `P` is the
//! type of a point and `S` the type of a scalar (a distance or an angle).
//! The command logic stores and forwards such values but never computes on
//! them; the geometry itself is built outside the library.

pub mod parser;
pub mod arc_cmd;
pub mod labels;
pub mod line_cmd;
pub mod dispatch;
pub mod match_prop;
pub mod modify;
pub mod shapes;

use vstd::prelude::*;
use vstd::string::*;
use crate::util::Color;
use crate::history::{History, Transaction, keep_newest};
use self::modify::{no_selection_error, no_selection_message};

verus! {

/// Lightweight descriptor for preview geometry drawn while a command runs
/// (a rubber-band line, a temporary circle outline).
#[derive(Debug, Clone)]
pub struct PreviewEntity<P> {
    /// The outline's points.
    pub points: Vec<P>,
    /// Its colour.
    pub color: Color,
    /// Its line width (`f32` bits).
    pub width: u32,
}

/// A user input event fed to the active command.
#[derive(Debug, Clone)]
pub enum CommandInput<P, S> {
    /// Mouse click or typed coordinate.
    Point(P),
    /// Command-line text entry.
    Text(String),
    /// Typed distance value.
    Distance(S),
    /// Typed angle in degrees.
    Angle(S),
    /// Escape key.
    Cancel,
    /// Enter key.
    Confirm,
}

/// What a command reports after processing an input.
#[derive(Debug)]
pub enum CommandResult<Op> {
    /// Await the next input.
    Continue,
    /// Finished successfully; the transaction is collected separately.
    Complete,
    /// Finished successfully with an embedded transaction.
    CompleteWithTransaction(Transaction<Op>),
    /// Invalid input: show the error and keep the command running.
    Error(String),
    /// The user cancelled.
    Cancelled,
}

/// What an interactive command decided after an input: keep going, report
/// an error, stop, or finish with an action `A` for the caller to carry out
/// on the drawing.
#[derive(Debug)]
pub enum Outcome<A> {
    /// Await the next input.
    Continue,
    /// Invalid input: show the message and keep the command running.
    Error(String),
    /// The command was cancelled.
    Cancelled,
    /// The command finished; the caller carries out the action.
    Done(A),
}

/// A command-line text read as a number.
///
/// The caller reads the number (the library does not compute with
/// floating-point values) and reports its sign with it.
#[derive(Debug, Clone, Copy, PartialEq, Eq, Structural)]
pub enum NumberText<S> {
    /// The text is the number `value`; `zero` and `positive` tell whether
    /// it equals zero and whether it is greater than zero.
    Number { value: S, zero: bool, positive: bool },
    /// The text is not a number.
    NotANumber,
}

/// The pairs of consecutive elements of `s`: `(s[0], s[1]), (s[1], s[2]), ...`.
pub open spec fn consecutive_pairs<P>(s: Seq<P>) -> Seq<(P, P)> {
    Seq::new(if s.len() == 0 { 0 } else { (s.len() - 1) as nat }, |i: int| (s[i], s[i + 1]))
}

/// The pairs of consecutive points of `v`.
pub fn pairs_of<P: Copy>(v: &Vec<P>) -> (r: Vec<(P, P)>)
    ensures
        r@ == consecutive_pairs(v@),
{
    let mut r: Vec<(P, P)> = Vec::new();
    let mut i: usize = 0;
    let n: usize = v.len();
    while i + 1 < n
        invariant
            n == v@.len(),
            i <= v@.len(),
            v@.len() == 0 ==> i == 0,
            v@.len() > 0 ==> i < v@.len(),
            r@.len() == i,
            forall|k: int| 0 <= k < i ==> #[trigger] r@[k] == (v@[k], v@[k + 1]),
        decreases v@.len() - i,
    {
        r.push((v[i], v[i + 1]));
        i = i + 1;
    }
    assert(r@ =~= consecutive_pairs(v@));
    r
}

/// The segments between consecutive points form a chain: there is one
/// fewer than there are points, segment `i` runs from point `i` to point
/// `i + 1`, and each segment ends where the next one starts.
pub proof fn law_segments_chain<P>(s: Seq<P>)
    requires
        s.len() >= 1,
    ensures
        consecutive_pairs(s).len() == s.len() - 1,
        forall|i: int| 0 <= i < s.len() - 1 ==> #[trigger] consecutive_pairs(s)[i] == (s[i], s[i + 1]),
        forall|i: int| 0 <= i < s.len() - 2 ==> (#[trigger] consecutive_pairs(s)[i]).1 == consecutive_pairs(s)[i + 1].0,
{
}

/// The text is the single letter `u`, in either case.
pub open spec fn is_undo_text(t: Seq<char>) -> bool {
    t == seq!['U'] || t == seq!['u']
}

/// Whether `t` is the single letter `u`, in either case.
pub fn text_is_undo(t: &str) -> (b: bool)
    ensures
        b == is_undo_text(t@),
{
    if t.unicode_len() != 1 {
        return false;
    }
    let c = t.get_char(0);
    proof {
        if c == 'U' || c == 'u' {
            assert(t@ =~= seq![c]);
        }
    }
    c == 'U' || c == 'u'
}

/// Toolbar-dispatched modify commands that bypass the text parser.
#[derive(Debug, Clone, Copy, PartialEq, Eq, Hash, Structural)]
pub enum PendingModifyCommand {
    Erase,
    Move,
    Copy,
    Rotate,
    Scale,
    Mirror,
    Offset,
    /// Decompose block references into primitives.
    Explode,
    /// Copy visual properties from a source entity to targets.
    MatchProp,
}

/// The command-line name of a modify command.
pub open spec fn modify_name(kind: PendingModifyCommand) -> Seq<char> {
    match kind {
        PendingModifyCommand::Erase => "ERASE"@,
        PendingModifyCommand::Move => "MOVE"@,
        PendingModifyCommand::Copy => "COPY"@,
        PendingModifyCommand::Rotate => "ROTATE"@,
        PendingModifyCommand::Scale => "SCALE"@,
        PendingModifyCommand::Mirror => "MIRROR"@,
        PendingModifyCommand::Offset => "OFFSET"@,
        PendingModifyCommand::Explode => "EXPLODE"@,
        PendingModifyCommand::MatchProp => "MATCHPROP"@,
    }
}

impl PendingModifyCommand {
    /// The command-line name of the command.
    pub fn name(&self) -> (n: &'static str)
        ensures
            n@ == modify_name(*self),
    {
        match self {
            PendingModifyCommand::Erase => "ERASE",
            PendingModifyCommand::Move => "MOVE",
            PendingModifyCommand::Copy => "COPY",
            PendingModifyCommand::Rotate => "ROTATE",
            PendingModifyCommand::Scale => "SCALE",
            PendingModifyCommand::Mirror => "MIRROR",
            PendingModifyCommand::Offset => "OFFSET",
            PendingModifyCommand::Explode => "EXPLODE",
            PendingModifyCommand::MatchProp => "MATCHPROP",
        }
    }
}

impl Default for PendingModifyCommand {
    fn default() -> (c: Self)
        ensures
            c == PendingModifyCommand::Erase,
    {
        PendingModifyCommand::Erase
    }
}

/// Manages the active command and the command line's state.
pub struct CommandState<C> {
    /// The running command, if any.
    pub active: Option<C>,
    /// Previous command strings.
    pub history: Vec<String>,
    /// Current command-line text.
    pub buffer: String,
    /// Most recent command error (displayed in the UI).
    pub last_error: Option<String>,
    /// Text waiting to be dispatched from the UI command line.
    pub pending_dispatch: Option<String>,
    /// Toolbar-dispatched modify command waiting for activation.
    pub pending_modify_command: Option<PendingModifyCommand>,
    /// Set by the UI when Escape is pressed with an active command; consumed
    /// by [`process_pending_cancel`](Self::process_pending_cancel).
    pub cancel_requested: bool,
}

impl<C> Default for CommandState<C> {
    fn default() -> (s: Self)
        ensures
            s.active is None,
            s.history@ == Seq::<String>::empty(),
            s.buffer@ == Seq::<char>::empty(),
            s.last_error is None,
            s.pending_dispatch is None,
            s.pending_modify_command is None,
            !s.cancel_requested,
    {
        CommandState {
            active: None,
            history: Vec::new(),
            buffer: String::new(),
            last_error: None,
            pending_dispatch: None,
            pending_modify_command: None,
            cancel_requested: false,
        }
    }
}

impl<C> CommandState<C> {
    /// If a cancel was requested, clear the request, remove the active
    /// command and the last error, and hand the removed command back so
    /// that the caller (which owns the entity world) can run its cancel
    /// clean-up.  Without a pending request nothing changes.
    pub fn process_pending_cancel(&mut self) -> (cancelled: Option<C>)
        ensures
            !final(self).cancel_requested,
            final(self).history == old(self).history,
            final(self).buffer == old(self).buffer,
            final(self).pending_dispatch == old(self).pending_dispatch,
            final(self).pending_modify_command == old(self).pending_modify_command,
            old(self).cancel_requested ==> {
                &&& cancelled == old(self).active
                &&& final(self).active is None
                &&& final(self).last_error is None
            },
            !old(self).cancel_requested ==> {
                &&& cancelled is None
                &&& final(self).active == old(self).active
                &&& final(self).last_error == old(self).last_error
            },
    {
        if self.cancel_requested {
            self.cancel_requested = false;
            let cmd = self.active.take();
            self.last_error = None;
            cmd
        } else {
            None
        }
    }

    /// Activate the toolbar modify command `cmd` of kind `kind`, built for a
    /// selection of `selected` entities.  With nothing selected the command
    /// is not activated and the error asks for a selection.
    pub fn dispatch_modify_command(&mut self, kind: PendingModifyCommand, selected: usize, cmd: C)
        ensures
            final(self).history == old(self).history,
            final(self).buffer == old(self).buffer,
            final(self).pending_dispatch == old(self).pending_dispatch,
            final(self).pending_modify_command == old(self).pending_modify_command,
            final(self).cancel_requested == old(self).cancel_requested,
            selected == 0 ==> {
                &&& final(self).active == old(self).active
                &&& final(self).last_error matches Some(m) && m@ == no_selection_message(modify_name(kind))
            },
            selected > 0 ==> {
                &&& final(self).active == Some(cmd)
                &&& final(self).last_error is None
            },
    {
        if selected == 0 {
            self.last_error = Some(no_selection_error(kind.name()));
            return;
        }
        self.active = Some(cmd);
        self.last_error = None;
    }

    /// Process a command's result:
    ///
    /// | Result      | Clears active? | Pushes to history? |
    /// |-------------|----------------|--------------------|
    /// | `Complete`  | Yes            | Yes (if a transaction was taken) |
    /// | `CompleteWithTransaction` | Yes | Yes (the embedded one) |
    /// | `Cancelled` | Yes            | No                 |
    /// | `Error`     | No (records the message) | No       |
    /// | `Continue`  | No             | No                 |
    pub fn handle_command_result<Op>(
        &mut self,
        journal: &mut History<Op>,
        result: CommandResult<Op>,
        transaction: Option<Transaction<Op>>,
    )
        ensures
            final(self).history == old(self).history,
            final(self).buffer == old(self).buffer,
            final(self).pending_dispatch == old(self).pending_dispatch,
            final(self).pending_modify_command == old(self).pending_modify_command,
            final(self).cancel_requested == old(self).cancel_requested,
            final(journal).max_depth == old(journal).max_depth,
            final(journal).mapping() == old(journal).mapping(),
            match result {
                CommandResult::Complete => {
                    &&& final(self).active is None
                    &&& final(self).last_error is None
                    &&& match transaction {
                        Some(tx) => {
                            &&& final(journal).undo_stack@
                                == keep_newest(old(journal).undo_stack@.push(tx), old(journal).max_depth)
                            &&& final(journal).redo_stack@ == Seq::<Transaction<Op>>::empty()
                        },
                        None => final(journal).undo_stack@ == old(journal).undo_stack@
                            && final(journal).redo_stack@ == old(journal).redo_stack@,
                    }
                },
                CommandResult::CompleteWithTransaction(tx) => {
                    &&& final(self).active is None
                    &&& final(self).last_error is None
                    &&& final(journal).undo_stack@
                        == keep_newest(old(journal).undo_stack@.push(tx), old(journal).max_depth)
                    &&& final(journal).redo_stack@ == Seq::<Transaction<Op>>::empty()
                },
                CommandResult::Cancelled => {
                    &&& final(self).active is None
                    &&& final(self).last_error is None
                    &&& final(journal).undo_stack@ == old(journal).undo_stack@
                    &&& final(journal).redo_stack@ == old(journal).redo_stack@
                },
                CommandResult::Error(msg) => {
                    &&& final(self).active == old(self).active
                    &&& final(self).last_error == Some(msg)
                    &&& final(journal).undo_stack@ == old(journal).undo_stack@
                    &&& final(journal).redo_stack@ == old(journal).redo_stack@
                },
                CommandResult::Continue => {
                    &&& final(self).active == old(self).active
                    &&& final(self).last_error == old(self).last_error
                    &&& final(journal).undo_stack@ == old(journal).undo_stack@
                    &&& final(journal).redo_stack@ == old(journal).redo_stack@
                },
            },
            old(journal).wf() ==> final(journal).wf(),
    {
        match result {
            CommandResult::Complete => {
                if let Some(tx) = transaction {
                    journal.push(tx);
                }
                self.active = None;
                self.last_error = None;
            },
            CommandResult::CompleteWithTransaction(tx) => {
                journal.push(tx);
                self.active = None;
                self.last_error = None;
            },
            CommandResult::Cancelled => {
                self.active = None;
                self.last_error = None;
            },
            CommandResult::Error(msg) => {
                self.last_error = Some(msg);
            },
            CommandResult::Continue => {},
        }
    }
}

} // verus!
