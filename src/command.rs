use vstd::prelude::*;

pub mod list;
pub mod new;

verus! {

/// A client subcommand.
#[derive(Debug)]
pub enum Command {
    /// Create a new task.
    New(new::Cli),
    /// Show the todo list.
    List(list::Cli),
}

impl Command {
    /// The line that the subcommand reports.
    pub open spec fn line(&self) -> Seq<char> {
        match self {
            Command::New(cli) => cli.line(),
            Command::List(cli) => cli.line(),
        }
    }

    /// Runs the subcommand; returns the line it reports.
    pub fn run(&self) -> (r: String)
        ensures
            r@ == self.line(),
    {
        match self {
            Command::New(cli) => cli.run(),
            Command::List(cli) => cli.run(),
        }
    }
}

} // verus!
