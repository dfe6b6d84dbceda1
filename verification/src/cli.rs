//! The command line: which command to run.

use vstd::prelude::*;

verus! {

/// What the `autostart` command does.
#[derive(Debug, Clone, Copy, PartialEq, Eq, Structural)]
pub enum AutostartAction {
    Enable,
    Disable,
}

/// The commands of the program.
#[derive(Debug, Clone, Copy, PartialEq, Eq, Structural)]
pub enum Command {
    /// Run the agent.
    Start,
    /// Manage the autostart behavior.
    Autostart { action: AutostartAction },
}

/// The parsed command line; the command may be left out.
#[derive(Debug, Clone, Copy, PartialEq, Eq, Structural)]
pub struct Cli {
    pub command: Option<Command>,
}

impl Cli {
    /// The command to run: the one given, or `Start` when none was.
    pub fn command(&self) -> (res: Command)
        ensures
            res == (match self.command {
                Some(c) => c,
                None => Command::Start,
            }),
    {
        match self.command {
            Some(c) => c,
            None => Command::Start,
        }
    }
}

} // verus!
