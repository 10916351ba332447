//! Line segmenter: splits one input line into an ordered sequence of
//! pipeline-stage strings at `|` characters that stand outside single and
//! double quotes.  Segments are trimmed and empty segments are dropped.

use vstd::prelude::*;
use vstd::string::StrSliceExecFns;

use crate::strutil::{is_space, push_char, trim_spec, trim_str};

verus! {

/// The segments produced by scanning `s` from position `i` onward, given the
/// quoting flags, the text of the segment being accumulated, and the segments
/// already produced.  A quote character toggles its flag only while the other
/// quote is closed; a `|` separates segments only while both are closed.
pub open spec fn segments_from(
    s: Seq<char>,
    i: int,
    in_single: bool,
    in_double: bool,
    cur: Seq<char>,
    acc: Seq<Seq<char>>,
) -> Seq<Seq<char>>
    decreases s.len() - i,
    when 0 <= i <= s.len()
{
    if i >= s.len() {
        if trim_spec(cur).len() == 0 {
            acc
        } else {
            acc.push(trim_spec(cur))
        }
    } else {
        let c = s[i];
        if c == '\'' && !in_double {
            segments_from(s, i + 1, !in_single, in_double, cur.push(c), acc)
        } else if c == '"' && !in_single {
            segments_from(s, i + 1, in_single, !in_double, cur.push(c), acc)
        } else if c == '|' && !in_single && !in_double {
            if trim_spec(cur).len() == 0 {
                segments_from(s, i + 1, in_single, in_double, Seq::empty(), acc)
            } else {
                segments_from(s, i + 1, in_single, in_double, Seq::empty(), acc.push(trim_spec(cur)))
            }
        } else {
            segments_from(s, i + 1, in_single, in_double, cur.push(c), acc)
        }
    }
}

/// The ordered, trimmed, non-empty pipeline segments of one input line.
pub open spec fn spec_segments(s: Seq<char>) -> Seq<Seq<char>> {
    segments_from(s, 0, false, false, Seq::empty(), Seq::empty())
}

proof fn lemma_segments_from_no_pipe(
    s: Seq<char>,
    i: int,
    in_single: bool,
    in_double: bool,
    cur: Seq<char>,
    acc: Seq<Seq<char>>,
)
    requires
        0 <= i <= s.len(),
        forall|j: int| i <= j < s.len() ==> s[j] != '|',
    ensures
        segments_from(s, i, in_single, in_double, cur, acc).len() <= acc.len() + 1,
    decreases s.len() - i,
{
    if i < s.len() {
        let c = s[i];
        if c == '\'' && !in_double {
            lemma_segments_from_no_pipe(s, i + 1, !in_single, in_double, cur.push(c), acc);
        } else if c == '"' && !in_single {
            lemma_segments_from_no_pipe(s, i + 1, in_single, !in_double, cur.push(c), acc);
        } else {
            lemma_segments_from_no_pipe(s, i + 1, in_single, in_double, cur.push(c), acc);
        }
    }
}

/// An input without `|` segments into at most one stage.
pub proof fn lemma_no_pipe_single_segment(s: Seq<char>)
    requires
        forall|j: int| 0 <= j < s.len() ==> s[j] != '|',
    ensures
        spec_segments(s).len() <= 1,
{
    lemma_segments_from_no_pipe(s, 0, false, false, Seq::empty(), Seq::empty());
}

/// Split a command line into pipeline segments at unquoted `|` characters.
pub fn parse_pipeline(input: &str) -> (segments: Vec<String>)
    ensures
        segments.deep_view() == spec_segments(input@),
{
    let n = input.unicode_len();
    let mut segments: Vec<String> = Vec::new();
    let mut current = String::new();
    let mut in_single = false;
    let mut in_double = false;
    let mut i: usize = 0;
    proof {
        assert(segments.deep_view() =~= Seq::<Seq<char>>::empty());
    }
    while i < n
        invariant
            n as nat == input@.len(),
            i <= n,
            spec_segments(input@) == segments_from(
                input@,
                i as int,
                in_single,
                in_double,
                current@,
                segments.deep_view(),
            ),
        decreases n - i,
    {
        let c = input.get_char(i);
        let ghost prev_acc = segments.deep_view();
        if c == '\'' && !in_double {
            in_single = !in_single;
            push_char(&mut current, c);
        } else if c == '"' && !in_single {
            in_double = !in_double;
            push_char(&mut current, c);
        } else if c == '|' && !in_single && !in_double {
            let trimmed = trim_str(current.as_str());
            if !trimmed.as_str().is_empty() {
                segments.push(trimmed);
                proof {
                    assert(segments.deep_view() =~= prev_acc.push(trim_spec(current@)));
                }
            }
            current = String::new();
        } else {
            push_char(&mut current, c);
        }
        i += 1;
    }
    let trimmed = trim_str(current.as_str());
    if !trimmed.as_str().is_empty() {
        let ghost prev_acc = segments.deep_view();
        segments.push(trimmed);
        proof {
            assert(segments.deep_view() =~= prev_acc.push(trim_spec(current@)));
        }
    }
    segments
}

} // verus!
