//! ARC command (reserved for a later version).

use vstd::prelude::*;
use vstd::string::*;
use super::{PreviewEntity, CommandInput, CommandResult};

verus! {

/// Interactive ARC command; every input is answered with an error until the
/// command is implemented.
#[derive(Debug, Clone, Copy)]
pub struct ArcCommand;

impl ArcCommand {
    /// Create the command.
    pub fn new() -> (c: Self)
        ensures
            c == ArcCommand,
    {
        ArcCommand
    }

    /// Command name used on the command line.
    pub fn name(&self) -> (n: &'static str)
        ensures
            n@ == "ARC"@,
    {
        "ARC"
    }

    /// Prompt for the current step.
    pub fn prompt(&self) -> (p: String)
        ensures
            p@ == "Not implemented (v0.2.0+)"@,
    {
        String::from_str("Not implemented (v0.2.0+)")
    }

    /// Number of steps remaining: always 1.
    pub fn steps_remaining(&self) -> (n: usize)
        ensures
            n == 1,
    {
        1
    }

    /// Every input is refused with an error.
    pub fn on_input<P, S, Op>(&mut self, input: CommandInput<P, S>) -> (r: CommandResult<Op>)
        ensures
            r matches CommandResult::Error(msg) && msg@ == "ARC command not yet implemented (v0.2.0+)"@,
    {
        CommandResult::Error(String::from_str("ARC command not yet implemented (v0.2.0+)"))
    }

    /// Preview geometry drawn while the command runs: none.
    pub fn preview<Q>(&self) -> (v: Vec<PreviewEntity<Q>>)
        ensures
            v@.len() == 0,
    {
        Vec::new()
    }

    /// Nothing to clean up.
    pub fn on_cancel(&mut self)
        ensures
            *final(self) == *old(self),
    {
    }
}

impl Default for ArcCommand {
    fn default() -> (c: Self)
        ensures
            c == ArcCommand,
    {
        ArcCommand
    }
}

} // verus!
