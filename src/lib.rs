//! Helpers for working with external tools: relative symbolic links between
//! absolute paths, invocations of `ln`, `git` and `rustup`, one shape of
//! result for every way a process can fail, and a two-process pipe.

pub mod command;
pub mod matching;
pub mod outcome;
pub mod path;
pub mod pipe;
