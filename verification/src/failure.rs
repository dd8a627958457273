//! Errors as chains of messages, outermost first: each step that adds
//! context puts its message in front of the cause's.
use vstd::prelude::*;
use crate::text::{join, join_seq, owned, views};

verus! {

/// A failure: its message and the messages of its causes, outermost first.
pub struct Failure {
    pub chain: Vec<String>,
}

impl View for Failure {
    type V = Seq<Seq<char>>;

    open spec fn view(&self) -> Seq<Seq<char>> {
        views(self.chain@)
    }
}

impl Failure {
    /// A failure with the single message `msg`.
    pub fn msg(msg: String) -> (f: Failure)
        ensures
            f@ == seq![msg@],
    {
        let mut chain: Vec<String> = Vec::new();
        chain.push(msg);
        assert(views(chain@) =~= seq![chain@[0]@]);
        Failure { chain }
    }

    /// This failure as the cause of a new one with message `msg`.
    pub fn context(self, msg: String) -> (f: Failure)
        ensures
            f@ == seq![msg@] + self@,
    {
        let mut chain: Vec<String> = Vec::new();
        chain.push(msg);
        let n = self.chain.len();
        let mut i: usize = 0;
        while i < n
            invariant
                n == self.chain@.len(),
                i <= n,
                chain@.len() == i + 1,
                chain@[0]@ == msg@,
                forall|j: int| 0 <= j < i ==> #[trigger] chain@[j + 1]@ == self.chain@[j]@,
            decreases n - i,
        {
            chain.push(self.chain[i].clone());
            i = i + 1;
        }
        assert forall|j: int| 0 <= j < views(chain@).len() implies #[trigger] views(chain@)[j]
            == (seq![msg@] + views(self.chain@))[j] by {
            if j > 0 {
                assert(chain@[(j - 1) + 1]@ == self.chain@[j - 1]@);
            }
        }
        assert(views(chain@) =~= seq![msg@] + views(self.chain@));
        Failure { chain }
    }
}

/// The message of a failure with its causes, as `{:#}` shows it:
/// the messages joined by ": ".
pub open spec fn chain_text(f: Seq<Seq<char>>) -> Seq<char> {
    join_seq(f, ": "@)
}

/// The text shown to the user for a failure that is a plain message.
pub fn fail(msg: &str) -> (r: String)
    ensures
        r@ == msg@,
{
    owned(msg)
}

/// The text shown to the user for a failure with its causes.
pub fn fail_chain(e: &Failure) -> (r: String)
    ensures
        r@ == chain_text(e@),
{
    join(&e.chain, ": ")
}

/// Adding context to a failure puts its message, and ": ", in front of
/// the text the failure had.
pub proof fn law_context_prefixes_text(f: Seq<Seq<char>>, msg: Seq<char>)
    requires
        f.len() > 0,
    ensures
        chain_text(seq![msg] + f) == msg + ": "@ + chain_text(f),
    decreases f.len(),
{
    let g = seq![msg] + f;
    if f.len() == 1 {
        assert(g.drop_last() =~= seq![msg]);
        assert(g.last() == f[0]);
        assert(join_seq(seq![msg], ": "@) == msg);
    } else {
        law_context_prefixes_text(f.drop_last(), msg);
        assert(g.drop_last() =~= seq![msg] + f.drop_last());
        assert(g.last() == f.last());
        assert(chain_text(g) =~= msg + ": "@ + chain_text(f));
    }
}

} // verus!
