//! The ways in which building a grammar can fail.
use vstd::prelude::*;

use crate::arena::ArenaId;

verus! {

/// A rejected grammar configuration.
#[derive(Debug, Clone, PartialEq, Eq)]
pub enum LSystemError {
    /// A symbol name that was never registered.
    UnknownToken(String),
    /// A symbol name that is empty or holds whitespace.
    InvalidToken(String),
    /// An id that names no token of the builder it was handed to.
    InvalidArenaId(ArenaId),
    /// A rule text that is not of the form `lhs => rhs...`.
    InvalidRule(String),
    /// `finish` was called before a start sequence was set.
    MissingStart,
}

} // verus!
