//! The front end for NQC, the C-like language of the brick: its lexers and
//! its syntax tree.

pub mod ast;
pub mod error;
pub mod lexer;
pub mod tokens;

use vstd::prelude::*;

verus! {

/// A stretch of the source, in characters.
#[derive(Debug, Clone, Copy, PartialEq, Eq)]
pub struct Span {
    /// The position of the first character, counted from zero.
    pub start: usize,
    /// The number of characters.
    pub length: usize,
}

} // verus!
