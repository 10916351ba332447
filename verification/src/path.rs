//! PATH executable lookup over an enumerated directory listing.  The caller
//! walks the PATH directories and hands in the executable entries it found,
//! in order; the functions here decide which entries resolve a command name
//! or match a completion prefix.

use vstd::prelude::*;

use crate::strutil::{spec_starts_with, str_eq, str_starts_with, vec_contains_str};

verus! {

/// One executable found while walking the PATH directories: its full path
/// and its bare file name.
#[derive(Clone, Debug)]
pub struct PathEntry {
    pub path: String,
    pub name: String,
}

/// The path of the first entry from position `i` onward whose name equals
/// `cmd`.
pub open spec fn find_from(cmd: Seq<char>, entries: Seq<PathEntry>, i: int) -> Option<Seq<char>>
    decreases entries.len() - i,
    when 0 <= i <= entries.len()
{
    if i >= entries.len() {
        None
    } else if entries[i].name@ == cmd {
        Some(entries[i].path@)
    } else {
        find_from(cmd, entries, i + 1)
    }
}

/// Resolves a command name to the first matching executable, in PATH order.
pub fn find_in_path(command: &str, entries: &Vec<PathEntry>) -> (r: Option<String>)
    ensures
        r is Some <==> find_from(command@, entries@, 0) is Some,
        r matches Some(p) ==> find_from(command@, entries@, 0) == Some(p@),
{
    let mut i: usize = 0;
    while i < entries.len()
        invariant
            i <= entries.len(),
            find_from(command@, entries@, 0) == find_from(command@, entries@, i as int),
        decreases entries.len() - i,
    {
        if str_eq(entries[i].name.as_str(), command) {
            return Some(entries[i].path.clone());
        }
        i += 1;
    }
    None
}

/// The names from position `i` onward that begin with `prefix`, appended to
/// `acc` in order, skipping names already present.
pub open spec fn collect_from(
    prefix: Seq<char>,
    entries: Seq<PathEntry>,
    i: int,
    acc: Seq<Seq<char>>,
) -> Seq<Seq<char>>
    decreases entries.len() - i,
    when 0 <= i <= entries.len()
{
    if i >= entries.len() {
        acc
    } else {
        let n = entries[i].name@;
        if spec_starts_with(n, prefix) && !acc.contains(n) {
            collect_from(prefix, entries, i + 1, acc.push(n))
        } else {
            collect_from(prefix, entries, i + 1, acc)
        }
    }
}

/// Collects the executable names matching a prefix, in PATH order, without
/// duplicates.
pub fn collect_from_path(prefix: &str, entries: &Vec<PathEntry>) -> (r: Vec<String>)
    ensures
        r.deep_view() == collect_from(prefix@, entries@, 0, Seq::empty()),
{
    let mut results: Vec<String> = Vec::new();
    proof {
        assert(results.deep_view() =~= Seq::<Seq<char>>::empty());
    }
    let mut i: usize = 0;
    while i < entries.len()
        invariant
            i <= entries.len(),
            collect_from(prefix@, entries@, 0, Seq::empty()) == collect_from(
                prefix@,
                entries@,
                i as int,
                results.deep_view(),
            ),
        decreases entries.len() - i,
    {
        let name = &entries[i].name;
        if str_starts_with(name.as_str(), prefix) && !vec_contains_str(&results, name.as_str()) {
            let ghost prev = results.deep_view();
            results.push(name.clone());
            proof {
                assert(results.deep_view() =~= prev.push(entries@[i as int].name@));
            }
        }
        i += 1;
    }
    results
}

} // verus!
