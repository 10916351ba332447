//! Tokenizer: splits one pipeline-stage string into argument tokens with
//! shell-style word splitting, honoring single quotes, double quotes and
//! backslash escapes.  Unterminated quoting abandons the whole pipeline with
//! a parse error before any stage runs.

use vstd::prelude::*;

use crate::errors::ParseError;

verus! {

/// What shell-style word splitting yields on one stage string: `None` when
/// quoting is unterminated at the end of the text, otherwise the ordered
/// sequence of argument words with quotes and escapes removed.
pub uninterp spec fn split_words(s: Seq<char>) -> Option<Seq<Seq<char>>>;

/// Relies on `shell_words::split`: splits a stage string into argument words
/// by the word-splitting rules of the POSIX shell, failing exactly when the
/// input ends inside an unterminated quote.  The result is a function of the
/// input characters alone.
#[verifier::external_body]
fn split_raw(s: &str) -> (r: Option<Vec<String>>)
    ensures
        r is Some <==> split_words(s@) is Some,
        r matches Some(words) ==> words.deep_view() == split_words(s@)->0,
{
    match shell_words::split(s) {
        Ok(words) => Some(words),
        Err(_) => None,
    }
}

/// Splits one stage string into its argument tokens; reports a parse error
/// when quoting is unterminated.
pub fn tokenize_stage(s: &str) -> (r: Result<Vec<String>, ParseError>)
    ensures
        r is Ok <==> split_words(s@) is Some,
        r matches Ok(tokens) ==> tokens.deep_view() == split_words(s@)->0,
        r matches Err(e) ==> e == ParseError::Tokenize,
{
    match split_raw(s) {
        Some(words) => Ok(words),
        None => Err(ParseError::Tokenize),
    }
}

} // verus!
