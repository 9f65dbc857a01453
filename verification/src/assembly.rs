//! The assembler's source format: one label or instruction to the line.
//!
//! ```text
//! start:
//!     PlaySound 2
//!     Wait 2 0x64 0
//!     jmp start
//! ```

pub mod ast;
pub mod parser;
