//! Parse errors: the conditions on which a whole pipeline is abandoned
//! before any stage runs, and the message each one carries.

use vstd::prelude::*;
use vstd::string::StringExecFns;

verus! {

/// The redirection operators that consume a filename token.
#[derive(Clone, Copy, Debug, PartialEq, Eq, Structural)]
pub enum RedirOp {
    /// `>` or `1>`
    OutTrunc,
    /// `>>` or `1>>`
    OutAppend,
    /// `2>`
    ErrTrunc,
    /// `2>>`
    ErrAppend,
    /// `&>`
    Both,
}

/// A malformed line: either the quoting of a stage is unterminated, or a
/// redirection operator stands without the filename it requires.
#[derive(Clone, Debug, PartialEq, Eq, Structural)]
pub enum ParseError {
    Tokenize,
    MissingFilename { op: RedirOp },
}

/// The message reported for each parse error.
pub open spec fn spec_error_message(e: ParseError) -> Seq<char> {
    match e {
        ParseError::Tokenize => "failed to parse command input"@,
        ParseError::MissingFilename { op } => match op {
            RedirOp::OutTrunc => "Missing filename for stdout"@,
            RedirOp::OutAppend => "Missing filename for stdout append"@,
            RedirOp::ErrTrunc => "Missing filename for stderr"@,
            RedirOp::ErrAppend => "Missing filename for stderr append"@,
            RedirOp::Both => "Missing filename for &>"@,
        },
    }
}

impl ParseError {
    /// Renders the error for the error stream.
    pub fn message(&self) -> (r: String)
        ensures
            r@ == spec_error_message(*self),
    {
        match self {
            ParseError::Tokenize => String::from_str("failed to parse command input"),
            ParseError::MissingFilename { op } => match op {
                RedirOp::OutTrunc => String::from_str("Missing filename for stdout"),
                RedirOp::OutAppend => String::from_str("Missing filename for stdout append"),
                RedirOp::ErrTrunc => String::from_str("Missing filename for stderr"),
                RedirOp::ErrAppend => String::from_str("Missing filename for stderr append"),
                RedirOp::Both => String::from_str("Missing filename for &>"),
            },
        }
    }
}

} // verus!
