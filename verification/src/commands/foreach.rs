//! What `foreach` asks of the command it is to run.

use vstd::prelude::*;

verus! {

/// No command was given.
#[derive(Debug)]
pub struct NoCommand;

impl NoCommand {
    /// What went wrong, in one line.
    pub fn message(&self) -> (r: String)
        ensures
            r@ == "No command specified"@,
    {
        String::from_str("No command specified")
    }
}

/// Checks that `command` names a program: that it has a first word.
pub fn check_command(command: &Vec<String>) -> (r: Result<(), NoCommand>)
    ensures
        r is Err <==> command@.len() == 0,
{
    if command.len() == 0 {
        Err(NoCommand)
    } else {
        Ok(())
    }
}

} // verus!
