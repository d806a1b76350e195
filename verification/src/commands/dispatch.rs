//! Routing of command-line text: to the active command as an input, or,
//! when no command runs, as a new command invocation.

use vstd::prelude::*;
use vstd::string::*;
use crate::util::{trim, trim_str};
use super::{CommandInput, Outcome, consecutive_pairs};
use super::labels::counted_label;
use super::line_cmd::{LineCommand, LineCommit};
use super::parser::{
    parse_command, parse_point, spec_parse_command, spec_parse_point, CommandModel, LineArgs,
    ParsedCommand, ParsedPoint,
};

verus! {

/// The input that command-line `text` gives the active command: `Confirm`
/// when it is blank, a point when its trimmed text starts with one, and
/// the trimmed text otherwise.
pub open spec fn text_input_spec<S>(text: Seq<char>, r: CommandInput<ParsedPoint, S>) -> bool {
    let t = trim(text);
    if t.len() == 0 {
        r is Confirm
    } else {
        match spec_parse_point(t) {
            Ok((_, p)) => r == CommandInput::<ParsedPoint, S>::Point(p),
            Err(_) => r matches CommandInput::Text(s) && s@ == t,
        }
    }
}

/// Turn command-line text into an input for the active command.
///
/// Blank text (pressing Enter) confirms; text that begins with a point
/// such as "10,20" is that point; anything else is passed on as text,
/// without its surrounding white space.
pub fn text_input<S>(text: &str) -> (r: CommandInput<ParsedPoint, S>)
    ensures
        text_input_spec(text@, r),
{
    let trimmed = trim_str(text);
    if trimmed.unicode_len() == 0 {
        CommandInput::Confirm
    } else {
        match parse_point(trimmed) {
            Ok((_, p)) => CommandInput::Point(p),
            Err(_) => CommandInput::Text(String::from_str(trimmed)),
        }
    }
}

/// The points typed inline after LINE, in order.
pub open spec fn inline_points(a: LineArgs) -> Seq<ParsedPoint> {
    (match a.start {
        Some(p) => seq![p],
        None => Seq::empty(),
    }) + (match a.end {
        Some(p) => seq![p],
        None => Seq::empty(),
    })
}

/// What a command invocation typed while no command runs leads to.
#[derive(Debug)]
pub enum Invocation {
    /// The command starts and becomes the active one.
    Start(LineCommand<ParsedPoint>),
    /// The inline arguments completed the command at once: the caller
    /// spawns the segments and records the transaction.
    Commit(LineCommit<ParsedPoint>),
    /// Nothing starts; the message is shown as the command error.
    Failed(String),
}

/// The message for a command that is recognised but not available.
pub open spec fn unavailable_message(m: CommandModel) -> Seq<char> {
    match m {
        CommandModel::Circle(_) => "CIRCLE command not yet implemented (v0.2.0+)"@,
        CommandModel::Arc(_) => "ARC command not yet implemented (v0.2.0+)"@,
        CommandModel::Polyline(..) => "PLINE command not yet implemented (v0.2.0+)"@,
        CommandModel::Line(_) => Seq::empty(),
    }
}

/// What [`invoke`] does with `text`.
pub open spec fn invoke_spec(text: Seq<char>, r: Invocation) -> bool {
    let t = trim(text);
    match spec_parse_command(t) {
        Err(_) => r matches Invocation::Failed(m) && m@ == "Unrecognised command: "@ + t,
        Ok((_, CommandModel::Line(a))) => {
            let pts = inline_points(a);
            if pts.len() >= 2 {
                r matches Invocation::Commit(c) && {
                    &&& c.segments@ == consecutive_pairs(pts)
                    &&& c.label@ == counted_label("Line"@, (pts.len() - 1) as nat, "segment"@)
                }
            } else {
                r matches Invocation::Start(cmd) && cmd.pending_points@ == pts
            }
        },
        Ok((_, m)) => r matches Invocation::Failed(msg) && msg@ == unavailable_message(m),
    }
}

/// Start the command that `text` invokes, feeding it the points typed
/// inline; when they already complete it, finish it at once.
///
/// "LINE 0,0 100,100" commits one segment; "LINE 5,5" starts LINE with
/// one point; "CIRCLE ..." and the other recognised but unavailable
/// commands fail with a message, as does unrecognised text.
pub fn invoke(text: &str) -> (r: Invocation)
    ensures
        invoke_spec(text@, r),
{
    let trimmed = trim_str(text);
    match parse_command(trimmed) {
        Ok((_, parsed)) => match parsed {
            ParsedCommand::Line(args) => {
                let mut cmd: LineCommand<ParsedPoint> = LineCommand::new();
                if let Some(start) = args.start {
                    let _ = cmd.on_input::<u32>(CommandInput::Point(start));
                }
                if let Some(end) = args.end {
                    let _ = cmd.on_input::<u32>(CommandInput::Point(end));
                }
                assert(cmd.pending_points@ =~= inline_points(args));
                if cmd.steps_remaining() == 0 {
                    match cmd.on_input::<u32>(CommandInput::Confirm) {
                        Outcome::Done(commit) => Invocation::Commit(commit),
                        Outcome::Error(msg) => Invocation::Failed(msg),
                        _ => Invocation::Start(cmd),
                    }
                } else {
                    Invocation::Start(cmd)
                }
            },
            ParsedCommand::Circle(_) => Invocation::Failed(
                String::from_str("CIRCLE command not yet implemented (v0.2.0+)"),
            ),
            ParsedCommand::Arc(_) => Invocation::Failed(
                String::from_str("ARC command not yet implemented (v0.2.0+)"),
            ),
            ParsedCommand::Polyline(_) => Invocation::Failed(
                String::from_str("PLINE command not yet implemented (v0.2.0+)"),
            ),
        },
        Err(_) => {
            let mut msg = String::from_str("Unrecognised command: ");
            msg.append(trimmed);
            Invocation::Failed(msg)
        },
    }
}

} // verus!
