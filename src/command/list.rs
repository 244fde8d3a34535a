use vstd::prelude::*;
use vstd::string::StringExecFns;

verus! {

/// Arguments of the list subcommand.
#[derive(Debug)]
pub struct Cli {
    /// Offset
    pub offset: Option<usize>,
    /// Limit
    pub limit: Option<usize>,
}

impl Cli {
    /// The line the list subcommand reports.
    pub open spec fn line(&self) -> Seq<char> {
        "show full list of todo's"@
    }

    /// Runs the subcommand; returns the line it reports.
    pub fn run(&self) -> (r: String)
        ensures
            r@ == self.line(),
    {
        let r = String::from_str("show full list of todo's");
        proof {
            reveal_strlit("show full list of todo's");
        }
        r
    }
}

} // verus!
