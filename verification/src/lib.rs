//! Pipeline execution engine for an interactive command interpreter.
//!
//! One line of input is segmented at unescaped `|`, each stage is tokenized
//! with shell-style word splitting, redirections are resolved for the
//! terminal stage, and a pipeline orchestrator decides, stage by stage, how
//! builtins and external executables are wired together.  Everything that
//! decides or computes lives here; the surrounding binary performs the
//! process spawning, file opening and terminal I/O that the decisions call
//! for.

pub mod builtins;
pub mod completion;
pub mod errors;
pub mod history;
pub mod path;
pub mod pipeline;
pub mod redirect;
pub mod segment;
pub mod shellio;
pub mod strutil;
pub mod tokenize;
