//! What a line of assembler source holds.

use vstd::prelude::*;

verus! {

/// One line of assembler source.
#[derive(Debug, PartialEq, Eq)]
pub enum LabelOrOpcode<'input> {
    /// A label: a name that a jump can refer to.
    Label(&'input str),
    /// A jump to a label.
    Jmp(&'input str),
    /// An opcode by name, with the bytes of its parameters.
    Opcode(&'input str, Vec<u8>),
}

/// A line of assembler source as a mathematical value.
pub enum LineView {
    Label(Seq<char>),
    Jmp(Seq<char>),
    Opcode(Seq<char>, Seq<u8>),
}

impl<'input> View for LabelOrOpcode<'input> {
    type V = LineView;

    open spec fn view(&self) -> LineView {
        match self {
            LabelOrOpcode::Label(name) => LineView::Label(name@),
            LabelOrOpcode::Jmp(name) => LineView::Jmp(name@),
            LabelOrOpcode::Opcode(name, args) => LineView::Opcode(name@, args@),
        }
    }
}

} // verus!
