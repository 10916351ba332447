//! The history store: a process-wide, append-only ordered sequence of prior
//! command-line strings.  The top-level read loop owns it and is its only
//! writer; the `history` builtin and the shutdown persistence collaborator
//! read it.

use vstd::prelude::*;

verus! {

/// Append-only record of the command lines accepted so far.
pub struct HistoryStore {
    entries: Vec<String>,
}

impl HistoryStore {
    /// The recorded lines, oldest first.
    pub closed spec fn view(&self) -> Seq<Seq<char>> {
        self.entries.deep_view()
    }

    /// An empty store.
    pub fn new() -> (r: HistoryStore)
        ensures
            r@ == Seq::<Seq<char>>::empty(),
    {
        let r = HistoryStore { entries: Vec::new() };
        proof {
            assert(r.entries.deep_view() =~= Seq::<Seq<char>>::empty());
        }
        r
    }

    /// Appends one accepted line; nothing recorded earlier moves or goes
    /// away.
    pub fn record(&mut self, line: String)
        ensures
            final(self)@ == old(self)@.push(line@),
    {
        let ghost prev = self.entries.deep_view();
        self.entries.push(line);
        proof {
            assert(self.entries.deep_view() =~= prev.push(line@));
        }
    }

    /// How many lines are recorded.
    pub fn len(&self) -> (n: usize)
        ensures
            n == self@.len(),
    {
        self.entries.len()
    }

    /// The recorded lines, for the `history` builtin and for persistence at
    /// shutdown.
    pub fn entries(&self) -> (r: &Vec<String>)
        ensures
            r.deep_view() == self@,
    {
        &self.entries
    }
}

} // verus!
