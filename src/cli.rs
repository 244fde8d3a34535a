use vstd::prelude::*;

use crate::command::Command;

verus! {

/// Parsed arguments of the command-line client.
#[derive(Debug)]
pub struct Args {
    /// Command to execute
    pub command: Command,
}

} // verus!
