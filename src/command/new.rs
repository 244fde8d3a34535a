use vstd::prelude::*;
use vstd::string::StringExecFns;

verus! {

/// The words of `words`, joined with nothing between them.
pub open spec fn joined(words: Seq<String>) -> Seq<char>
    decreases words.len(),
{
    if words.len() == 0 {
        Seq::<char>::empty()
    } else {
        joined(words.drop_last()) + words.last()@
    }
}

/// Arguments of the new subcommand.
#[derive(Debug)]
pub struct Cli {
    /// New todo title
    pub title: Vec<String>,
}

impl Cli {
    /// The line the new subcommand reports: a fixed prefix and the title
    /// words joined.
    pub open spec fn line(&self) -> Seq<char> {
        "create new task "@ + joined(self.title@)
    }

    /// Runs the subcommand; returns the line it reports.
    pub fn run(&self) -> (r: String)
        ensures
            r@ == self.line(),
    {
        let mut r = String::from_str("create new task ");
        proof {
            reveal_strlit("create new task ");
        }
        let ghost prefix = r@;
        let mut i: usize = 0;
        while i < self.title.len()
            invariant
                i <= self.title@.len(),
                prefix == "create new task "@,
                r@ == prefix + joined(self.title@.subrange(0, i as int)),
            decreases self.title@.len() - i,
        {
            r.append(self.title[i].as_str());
            proof {
                let s = self.title@.subrange(0, i + 1);
                assert(s.drop_last() =~= self.title@.subrange(0, i as int));
            }
            assert(r@ =~= prefix + joined(self.title@.subrange(0, i + 1)));
            i = i + 1;
        }
        assert(self.title@.subrange(0, i as int) =~= self.title@);
        r
    }
}

} // verus!
