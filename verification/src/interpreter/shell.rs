//! The line that an interactive session is working on.

use vstd::prelude::*;

verus! {

/// Holds the command that was read last.
pub struct Shell {
    current_command: String,
}

impl Shell {
    /// The command that was read last.
    pub closed spec fn command(&self) -> Seq<char> {
        self.current_command@
    }

    /// A shell that has read nothing yet.
    pub fn new() -> (r: Self)
        ensures
            r.command() == Seq::<char>::empty(),
    {
        Self { current_command: String::new() }
    }

    /// The command that was read last.
    pub fn get_command(&self) -> (r: &str)
        ensures
            r@ == self.command(),
    {
        self.current_command.as_str()
    }

    /// Replaces the command.
    pub fn set_command(&mut self, command: String)
        ensures
            final(self).command() == command@,
    {
        self.current_command = command;
    }
}

impl Default for Shell {
    fn default() -> (r: Self)
        ensures
            r.command() == Seq::<char>::empty(),
    {
        Self::new()
    }
}

} // verus!
