//! Command completion candidates: when the cursor stands in the first word,
//! the builtin names matching the typed prefix are offered, then the PATH
//! executable names not already offered.  The line-editing front end owns
//! the rest of the completion machinery.

use vstd::prelude::*;

use crate::builtins::builtin_names;
use crate::strutil::{spec_starts_with, str_starts_with, vec_contains_str};

verus! {

/// The builtin names from position `i` onward that begin with `prefix`,
/// appended to `acc` in order.
pub open spec fn add_builtins(
    builtins: Seq<Seq<char>>,
    prefix: Seq<char>,
    i: int,
    acc: Seq<Seq<char>>,
) -> Seq<Seq<char>>
    decreases builtins.len() - i,
    when 0 <= i <= builtins.len()
{
    if i >= builtins.len() {
        acc
    } else if spec_starts_with(builtins[i], prefix) {
        add_builtins(builtins, prefix, i + 1, acc.push(builtins[i]))
    } else {
        add_builtins(builtins, prefix, i + 1, acc)
    }
}

/// The names from position `i` onward not already in `acc`, appended in
/// order.
pub open spec fn add_new_names(names: Seq<Seq<char>>, i: int, acc: Seq<Seq<char>>) -> Seq<Seq<char>>
    decreases names.len() - i,
    when 0 <= i <= names.len()
{
    if i >= names.len() {
        acc
    } else if !acc.contains(names[i]) {
        add_new_names(names, i + 1, acc.push(names[i]))
    } else {
        add_new_names(names, i + 1, acc)
    }
}

/// The full candidate list for a first-word completion: the candidates
/// already present, then the matching builtins, then the matching PATH
/// executable names not already listed.
pub open spec fn spec_complete(
    existing: Seq<Seq<char>>,
    prefix: Seq<char>,
    path_names: Seq<Seq<char>>,
) -> Seq<Seq<char>> {
    add_new_names(
        path_names,
        0,
        add_builtins(seq!["cd"@, "echo"@, "exit"@, "history"@, "pwd"@, "type"@], prefix, 0, existing),
    )
}

/// Extends a candidate list with the builtins matching the typed prefix and
/// with the given PATH executable names, skipping names already offered.
/// `path_names` is expected to be already prefix-filtered, as
/// `collect_from_path` returns it.
pub fn complete_candidates(existing: &Vec<String>, prefix: &str, path_names: &Vec<String>) -> (r:
    Vec<String>)
    ensures
        r.deep_view() == spec_complete(existing.deep_view(), prefix@, path_names.deep_view()),
{
    let ghost builtin_seq = seq!["cd"@, "echo"@, "exit"@, "history"@, "pwd"@, "type"@];
    let mut candidates: Vec<String> = Vec::new();
    let mut i: usize = 0;
    while i < existing.len()
        invariant
            i <= existing.len(),
            candidates.deep_view() == existing.deep_view().subrange(0, i as int),
        decreases existing.len() - i,
    {
        let ghost prev = candidates.deep_view();
        candidates.push(existing[i].clone());
        proof {
            assert(candidates.deep_view() =~= prev.push(existing.deep_view()[i as int]));
            assert(candidates.deep_view() =~= existing.deep_view().subrange(0, i + 1 as int));
        }
        i += 1;
    }
    proof {
        assert(existing.deep_view().subrange(0, existing.len() as int) =~= existing.deep_view());
    }
    let builtins = builtin_names();
    let mut b: usize = 0;
    while b < builtins.len()
        invariant
            b <= builtins.len(),
            builtins.deep_view() == builtin_seq,
            builtins.len() == builtin_seq.len(),
            add_builtins(builtin_seq, prefix@, 0, existing.deep_view()) == add_builtins(
                builtin_seq,
                prefix@,
                b as int,
                candidates.deep_view(),
            ),
        decreases builtins.len() - b,
    {
        if str_starts_with(builtins[b].as_str(), prefix) {
            let ghost prev = candidates.deep_view();
            candidates.push(builtins[b].clone());
            proof {
                assert(candidates.deep_view() =~= prev.push(builtin_seq[b as int]));
            }
        }
        b += 1;
    }
    let mut p: usize = 0;
    while p < path_names.len()
        invariant
            p <= path_names.len(),
            add_new_names(path_names.deep_view(), 0, add_builtins(
                builtin_seq,
                prefix@,
                0,
                existing.deep_view(),
            )) == add_new_names(path_names.deep_view(), p as int, candidates.deep_view()),
        decreases path_names.len() - p,
    {
        let name = &path_names[p];
        if !vec_contains_str(&candidates, name.as_str()) {
            let ghost prev = candidates.deep_view();
            candidates.push(name.clone());
            proof {
                assert(candidates.deep_view() =~= prev.push(path_names.deep_view()[p as int]));
            }
        }
        p += 1;
    }
    candidates
}

} // verus!
