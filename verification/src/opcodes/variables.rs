//! Opcodes that compute on variables.

use vstd::prelude::*;
use vstd::string::StringExecFns;
use crate::errors::Error;
use crate::opcodes::{Disasm, Opcode};
use crate::opcodes::params::{DisasmParam, lemma_read_part, WriteParam};

verus! {

/// Sets a variable to a value.
#[derive(Debug, Clone, Copy, PartialEq, Eq)]
pub struct SetVariable {
    /// The variable, 0 to 31.
    pub index: u8,
    /// Where the value comes from.
    pub source: u8,
    /// The argument of the source.
    pub argument: i16,
}

impl Opcode for SetVariable {
    open spec fn opcode(&self) -> u8 {
        0x14
    }

    open spec fn encoding(&self) -> Seq<u8> {
        self.index.param_bytes() + self.source.param_bytes() + self.argument.param_bytes()
    }

    open spec fn text(&self) -> Seq<char> {
        "SetVariable"@ + " index="@ + self.index.param_text() + " source="@
            + self.source.param_text() + " argument="@ + self.argument.param_text()
    }

    fn request_opcode(&self) -> (r: u8) {
        0x14
    }

    fn encode(&self) -> (r: Vec<u8>) {
        let mut buf: Vec<u8> = Vec::new();
        self.index.write_param(&mut buf);
        self.source.write_param(&mut buf);
        self.argument.write_param(&mut buf);
        assert(buf@ =~= self.encoding());
        buf
    }

    fn to_string(&self) -> (r: String) {
        let mut out = String::from_str("SetVariable");
        out.append(" index=");
        self.index.show_param(&mut out);
        out.append(" source=");
        self.source.show_param(&mut out);
        out.append(" argument=");
        self.argument.show_param(&mut out);
        assert(out@ =~= self.text());
        out
    }
}

impl Disasm for SetVariable {
    open spec fn size() -> nat {
        4
    }

    open spec fn decoded(bin: Seq<u8>, at: int) -> Self {
        SetVariable {
            index: u8::param_at(bin, at),
            source: u8::param_at(bin, at + 1),
            argument: i16::param_at(bin, at + 2),
        }
    }

    fn disasm(bin: &[u8], pc: &mut usize) -> (r: Result<Self, Error>) {
        let index = u8::disasm_param(bin, pc)?;
        let source = u8::disasm_param(bin, pc)?;
        let argument = i16::disasm_param(bin, pc)?;
        Ok(SetVariable { index, source, argument })
    }

    proof fn round_trip(self, bin: Seq<u8>, at: int) {
        self.encoded_size();
        assert(self.encoding().subrange(0, 1) =~= self.index.param_bytes());
        lemma_read_part(self.index, bin, at, self.encoding(), 0);
        assert(self.encoding().subrange(1, 2) =~= self.source.param_bytes());
        lemma_read_part(self.source, bin, at, self.encoding(), 1);
        assert(self.encoding().subrange(2, 4) =~= self.argument.param_bytes());
        lemma_read_part(self.argument, bin, at, self.encoding(), 2);
    }

    proof fn encoded_size(self) {
        self.index.lemma_width();
        self.source.lemma_width();
        self.argument.lemma_width();
    }
}

/// Adds a value to a variable.
#[derive(Debug, Clone, Copy, PartialEq, Eq)]
pub struct AddToVariable {
    /// The variable, 0 to 31.
    pub index: u8,
    /// Where the value comes from.
    pub source: u8,
    /// The argument of the source.
    pub argument: i16,
}

impl Opcode for AddToVariable {
    open spec fn opcode(&self) -> u8 {
        0x24
    }

    open spec fn encoding(&self) -> Seq<u8> {
        self.index.param_bytes() + self.source.param_bytes() + self.argument.param_bytes()
    }

    open spec fn text(&self) -> Seq<char> {
        "AddToVariable"@ + " index="@ + self.index.param_text() + " source="@
            + self.source.param_text() + " argument="@ + self.argument.param_text()
    }

    fn request_opcode(&self) -> (r: u8) {
        0x24
    }

    fn encode(&self) -> (r: Vec<u8>) {
        let mut buf: Vec<u8> = Vec::new();
        self.index.write_param(&mut buf);
        self.source.write_param(&mut buf);
        self.argument.write_param(&mut buf);
        assert(buf@ =~= self.encoding());
        buf
    }

    fn to_string(&self) -> (r: String) {
        let mut out = String::from_str("AddToVariable");
        out.append(" index=");
        self.index.show_param(&mut out);
        out.append(" source=");
        self.source.show_param(&mut out);
        out.append(" argument=");
        self.argument.show_param(&mut out);
        assert(out@ =~= self.text());
        out
    }
}

impl Disasm for AddToVariable {
    open spec fn size() -> nat {
        4
    }

    open spec fn decoded(bin: Seq<u8>, at: int) -> Self {
        AddToVariable {
            index: u8::param_at(bin, at),
            source: u8::param_at(bin, at + 1),
            argument: i16::param_at(bin, at + 2),
        }
    }

    fn disasm(bin: &[u8], pc: &mut usize) -> (r: Result<Self, Error>) {
        let index = u8::disasm_param(bin, pc)?;
        let source = u8::disasm_param(bin, pc)?;
        let argument = i16::disasm_param(bin, pc)?;
        Ok(AddToVariable { index, source, argument })
    }

    proof fn round_trip(self, bin: Seq<u8>, at: int) {
        self.encoded_size();
        assert(self.encoding().subrange(0, 1) =~= self.index.param_bytes());
        lemma_read_part(self.index, bin, at, self.encoding(), 0);
        assert(self.encoding().subrange(1, 2) =~= self.source.param_bytes());
        lemma_read_part(self.source, bin, at, self.encoding(), 1);
        assert(self.encoding().subrange(2, 4) =~= self.argument.param_bytes());
        lemma_read_part(self.argument, bin, at, self.encoding(), 2);
    }

    proof fn encoded_size(self) {
        self.index.lemma_width();
        self.source.lemma_width();
        self.argument.lemma_width();
    }
}

/// Subtracts a value from a variable.
#[derive(Debug, Clone, Copy, PartialEq, Eq)]
pub struct SubtractFromVariable {
    /// The variable, 0 to 31.
    pub index: u8,
    /// Where the value comes from.
    pub source: u8,
    /// The argument of the source.
    pub argument: i16,
}

impl Opcode for SubtractFromVariable {
    open spec fn opcode(&self) -> u8 {
        0x34
    }

    open spec fn encoding(&self) -> Seq<u8> {
        self.index.param_bytes() + self.source.param_bytes() + self.argument.param_bytes()
    }

    open spec fn text(&self) -> Seq<char> {
        "SubtractFromVariable"@ + " index="@ + self.index.param_text() + " source="@
            + self.source.param_text() + " argument="@ + self.argument.param_text()
    }

    fn request_opcode(&self) -> (r: u8) {
        0x34
    }

    fn encode(&self) -> (r: Vec<u8>) {
        let mut buf: Vec<u8> = Vec::new();
        self.index.write_param(&mut buf);
        self.source.write_param(&mut buf);
        self.argument.write_param(&mut buf);
        assert(buf@ =~= self.encoding());
        buf
    }

    fn to_string(&self) -> (r: String) {
        let mut out = String::from_str("SubtractFromVariable");
        out.append(" index=");
        self.index.show_param(&mut out);
        out.append(" source=");
        self.source.show_param(&mut out);
        out.append(" argument=");
        self.argument.show_param(&mut out);
        assert(out@ =~= self.text());
        out
    }
}

impl Disasm for SubtractFromVariable {
    open spec fn size() -> nat {
        4
    }

    open spec fn decoded(bin: Seq<u8>, at: int) -> Self {
        SubtractFromVariable {
            index: u8::param_at(bin, at),
            source: u8::param_at(bin, at + 1),
            argument: i16::param_at(bin, at + 2),
        }
    }

    fn disasm(bin: &[u8], pc: &mut usize) -> (r: Result<Self, Error>) {
        let index = u8::disasm_param(bin, pc)?;
        let source = u8::disasm_param(bin, pc)?;
        let argument = i16::disasm_param(bin, pc)?;
        Ok(SubtractFromVariable { index, source, argument })
    }

    proof fn round_trip(self, bin: Seq<u8>, at: int) {
        self.encoded_size();
        assert(self.encoding().subrange(0, 1) =~= self.index.param_bytes());
        lemma_read_part(self.index, bin, at, self.encoding(), 0);
        assert(self.encoding().subrange(1, 2) =~= self.source.param_bytes());
        lemma_read_part(self.source, bin, at, self.encoding(), 1);
        assert(self.encoding().subrange(2, 4) =~= self.argument.param_bytes());
        lemma_read_part(self.argument, bin, at, self.encoding(), 2);
    }

    proof fn encoded_size(self) {
        self.index.lemma_width();
        self.source.lemma_width();
        self.argument.lemma_width();
    }
}

/// Divides a variable by a value.
#[derive(Debug, Clone, Copy, PartialEq, Eq)]
pub struct DivideVariable {
    /// The variable, 0 to 31.
    pub index: u8,
    /// Where the value comes from.
    pub source: u8,
    /// The argument of the source.
    pub argument: i16,
}

impl Opcode for DivideVariable {
    open spec fn opcode(&self) -> u8 {
        0x44
    }

    open spec fn encoding(&self) -> Seq<u8> {
        self.index.param_bytes() + self.source.param_bytes() + self.argument.param_bytes()
    }

    open spec fn text(&self) -> Seq<char> {
        "DivideVariable"@ + " index="@ + self.index.param_text() + " source="@
            + self.source.param_text() + " argument="@ + self.argument.param_text()
    }

    fn request_opcode(&self) -> (r: u8) {
        0x44
    }

    fn encode(&self) -> (r: Vec<u8>) {
        let mut buf: Vec<u8> = Vec::new();
        self.index.write_param(&mut buf);
        self.source.write_param(&mut buf);
        self.argument.write_param(&mut buf);
        assert(buf@ =~= self.encoding());
        buf
    }

    fn to_string(&self) -> (r: String) {
        let mut out = String::from_str("DivideVariable");
        out.append(" index=");
        self.index.show_param(&mut out);
        out.append(" source=");
        self.source.show_param(&mut out);
        out.append(" argument=");
        self.argument.show_param(&mut out);
        assert(out@ =~= self.text());
        out
    }
}

impl Disasm for DivideVariable {
    open spec fn size() -> nat {
        4
    }

    open spec fn decoded(bin: Seq<u8>, at: int) -> Self {
        DivideVariable {
            index: u8::param_at(bin, at),
            source: u8::param_at(bin, at + 1),
            argument: i16::param_at(bin, at + 2),
        }
    }

    fn disasm(bin: &[u8], pc: &mut usize) -> (r: Result<Self, Error>) {
        let index = u8::disasm_param(bin, pc)?;
        let source = u8::disasm_param(bin, pc)?;
        let argument = i16::disasm_param(bin, pc)?;
        Ok(DivideVariable { index, source, argument })
    }

    proof fn round_trip(self, bin: Seq<u8>, at: int) {
        self.encoded_size();
        assert(self.encoding().subrange(0, 1) =~= self.index.param_bytes());
        lemma_read_part(self.index, bin, at, self.encoding(), 0);
        assert(self.encoding().subrange(1, 2) =~= self.source.param_bytes());
        lemma_read_part(self.source, bin, at, self.encoding(), 1);
        assert(self.encoding().subrange(2, 4) =~= self.argument.param_bytes());
        lemma_read_part(self.argument, bin, at, self.encoding(), 2);
    }

    proof fn encoded_size(self) {
        self.index.lemma_width();
        self.source.lemma_width();
        self.argument.lemma_width();
    }
}

/// Multiplies a variable by a value.
#[derive(Debug, Clone, Copy, PartialEq, Eq)]
pub struct MultiplyVariable {
    /// The variable, 0 to 31.
    pub index: u8,
    /// Where the value comes from.
    pub source: u8,
    /// The argument of the source.
    pub argument: i16,
}

impl Opcode for MultiplyVariable {
    open spec fn opcode(&self) -> u8 {
        0x54
    }

    open spec fn encoding(&self) -> Seq<u8> {
        self.index.param_bytes() + self.source.param_bytes() + self.argument.param_bytes()
    }

    open spec fn text(&self) -> Seq<char> {
        "MultiplyVariable"@ + " index="@ + self.index.param_text() + " source="@
            + self.source.param_text() + " argument="@ + self.argument.param_text()
    }

    fn request_opcode(&self) -> (r: u8) {
        0x54
    }

    fn encode(&self) -> (r: Vec<u8>) {
        let mut buf: Vec<u8> = Vec::new();
        self.index.write_param(&mut buf);
        self.source.write_param(&mut buf);
        self.argument.write_param(&mut buf);
        assert(buf@ =~= self.encoding());
        buf
    }

    fn to_string(&self) -> (r: String) {
        let mut out = String::from_str("MultiplyVariable");
        out.append(" index=");
        self.index.show_param(&mut out);
        out.append(" source=");
        self.source.show_param(&mut out);
        out.append(" argument=");
        self.argument.show_param(&mut out);
        assert(out@ =~= self.text());
        out
    }
}

impl Disasm for MultiplyVariable {
    open spec fn size() -> nat {
        4
    }

    open spec fn decoded(bin: Seq<u8>, at: int) -> Self {
        MultiplyVariable {
            index: u8::param_at(bin, at),
            source: u8::param_at(bin, at + 1),
            argument: i16::param_at(bin, at + 2),
        }
    }

    fn disasm(bin: &[u8], pc: &mut usize) -> (r: Result<Self, Error>) {
        let index = u8::disasm_param(bin, pc)?;
        let source = u8::disasm_param(bin, pc)?;
        let argument = i16::disasm_param(bin, pc)?;
        Ok(MultiplyVariable { index, source, argument })
    }

    proof fn round_trip(self, bin: Seq<u8>, at: int) {
        self.encoded_size();
        assert(self.encoding().subrange(0, 1) =~= self.index.param_bytes());
        lemma_read_part(self.index, bin, at, self.encoding(), 0);
        assert(self.encoding().subrange(1, 2) =~= self.source.param_bytes());
        lemma_read_part(self.source, bin, at, self.encoding(), 1);
        assert(self.encoding().subrange(2, 4) =~= self.argument.param_bytes());
        lemma_read_part(self.argument, bin, at, self.encoding(), 2);
    }

    proof fn encoded_size(self) {
        self.index.lemma_width();
        self.source.lemma_width();
        self.argument.lemma_width();
    }
}

/// Sets a variable to the sign of a value.
#[derive(Debug, Clone, Copy, PartialEq, Eq)]
pub struct SignVariable {
    /// The variable, 0 to 31.
    pub index: u8,
    /// Where the value comes from.
    pub source: u8,
    /// The argument of the source.
    pub argument: i16,
}

impl Opcode for SignVariable {
    open spec fn opcode(&self) -> u8 {
        0x64
    }

    open spec fn encoding(&self) -> Seq<u8> {
        self.index.param_bytes() + self.source.param_bytes() + self.argument.param_bytes()
    }

    open spec fn text(&self) -> Seq<char> {
        "SignVariable"@ + " index="@ + self.index.param_text() + " source="@
            + self.source.param_text() + " argument="@ + self.argument.param_text()
    }

    fn request_opcode(&self) -> (r: u8) {
        0x64
    }

    fn encode(&self) -> (r: Vec<u8>) {
        let mut buf: Vec<u8> = Vec::new();
        self.index.write_param(&mut buf);
        self.source.write_param(&mut buf);
        self.argument.write_param(&mut buf);
        assert(buf@ =~= self.encoding());
        buf
    }

    fn to_string(&self) -> (r: String) {
        let mut out = String::from_str("SignVariable");
        out.append(" index=");
        self.index.show_param(&mut out);
        out.append(" source=");
        self.source.show_param(&mut out);
        out.append(" argument=");
        self.argument.show_param(&mut out);
        assert(out@ =~= self.text());
        out
    }
}

impl Disasm for SignVariable {
    open spec fn size() -> nat {
        4
    }

    open spec fn decoded(bin: Seq<u8>, at: int) -> Self {
        SignVariable {
            index: u8::param_at(bin, at),
            source: u8::param_at(bin, at + 1),
            argument: i16::param_at(bin, at + 2),
        }
    }

    fn disasm(bin: &[u8], pc: &mut usize) -> (r: Result<Self, Error>) {
        let index = u8::disasm_param(bin, pc)?;
        let source = u8::disasm_param(bin, pc)?;
        let argument = i16::disasm_param(bin, pc)?;
        Ok(SignVariable { index, source, argument })
    }

    proof fn round_trip(self, bin: Seq<u8>, at: int) {
        self.encoded_size();
        assert(self.encoding().subrange(0, 1) =~= self.index.param_bytes());
        lemma_read_part(self.index, bin, at, self.encoding(), 0);
        assert(self.encoding().subrange(1, 2) =~= self.source.param_bytes());
        lemma_read_part(self.source, bin, at, self.encoding(), 1);
        assert(self.encoding().subrange(2, 4) =~= self.argument.param_bytes());
        lemma_read_part(self.argument, bin, at, self.encoding(), 2);
    }

    proof fn encoded_size(self) {
        self.index.lemma_width();
        self.source.lemma_width();
        self.argument.lemma_width();
    }
}

/// Sets a variable to the absolute value of a value.
#[derive(Debug, Clone, Copy, PartialEq, Eq)]
pub struct AbsoluteValue {
    /// The variable, 0 to 31.
    pub index: u8,
    /// Where the value comes from.
    pub source: u8,
    /// The argument of the source.
    pub argument: i16,
}

impl Opcode for AbsoluteValue {
    open spec fn opcode(&self) -> u8 {
        0x74
    }

    open spec fn encoding(&self) -> Seq<u8> {
        self.index.param_bytes() + self.source.param_bytes() + self.argument.param_bytes()
    }

    open spec fn text(&self) -> Seq<char> {
        "AbsoluteValue"@ + " index="@ + self.index.param_text() + " source="@
            + self.source.param_text() + " argument="@ + self.argument.param_text()
    }

    fn request_opcode(&self) -> (r: u8) {
        0x74
    }

    fn encode(&self) -> (r: Vec<u8>) {
        let mut buf: Vec<u8> = Vec::new();
        self.index.write_param(&mut buf);
        self.source.write_param(&mut buf);
        self.argument.write_param(&mut buf);
        assert(buf@ =~= self.encoding());
        buf
    }

    fn to_string(&self) -> (r: String) {
        let mut out = String::from_str("AbsoluteValue");
        out.append(" index=");
        self.index.show_param(&mut out);
        out.append(" source=");
        self.source.show_param(&mut out);
        out.append(" argument=");
        self.argument.show_param(&mut out);
        assert(out@ =~= self.text());
        out
    }
}

impl Disasm for AbsoluteValue {
    open spec fn size() -> nat {
        4
    }

    open spec fn decoded(bin: Seq<u8>, at: int) -> Self {
        AbsoluteValue {
            index: u8::param_at(bin, at),
            source: u8::param_at(bin, at + 1),
            argument: i16::param_at(bin, at + 2),
        }
    }

    fn disasm(bin: &[u8], pc: &mut usize) -> (r: Result<Self, Error>) {
        let index = u8::disasm_param(bin, pc)?;
        let source = u8::disasm_param(bin, pc)?;
        let argument = i16::disasm_param(bin, pc)?;
        Ok(AbsoluteValue { index, source, argument })
    }

    proof fn round_trip(self, bin: Seq<u8>, at: int) {
        self.encoded_size();
        assert(self.encoding().subrange(0, 1) =~= self.index.param_bytes());
        lemma_read_part(self.index, bin, at, self.encoding(), 0);
        assert(self.encoding().subrange(1, 2) =~= self.source.param_bytes());
        lemma_read_part(self.source, bin, at, self.encoding(), 1);
        assert(self.encoding().subrange(2, 4) =~= self.argument.param_bytes());
        lemma_read_part(self.argument, bin, at, self.encoding(), 2);
    }

    proof fn encoded_size(self) {
        self.index.lemma_width();
        self.source.lemma_width();
        self.argument.lemma_width();
    }
}

/// Ands a value into a variable, bit by bit.
#[derive(Debug, Clone, Copy, PartialEq, Eq)]
pub struct AndVariable {
    /// The variable, 0 to 31.
    pub index: u8,
    /// Where the value comes from.
    pub source: u8,
    /// The argument of the source.
    pub argument: i16,
}

impl Opcode for AndVariable {
    open spec fn opcode(&self) -> u8 {
        0x84
    }

    open spec fn encoding(&self) -> Seq<u8> {
        self.index.param_bytes() + self.source.param_bytes() + self.argument.param_bytes()
    }

    open spec fn text(&self) -> Seq<char> {
        "AndVariable"@ + " index="@ + self.index.param_text() + " source="@
            + self.source.param_text() + " argument="@ + self.argument.param_text()
    }

    fn request_opcode(&self) -> (r: u8) {
        0x84
    }

    fn encode(&self) -> (r: Vec<u8>) {
        let mut buf: Vec<u8> = Vec::new();
        self.index.write_param(&mut buf);
        self.source.write_param(&mut buf);
        self.argument.write_param(&mut buf);
        assert(buf@ =~= self.encoding());
        buf
    }

    fn to_string(&self) -> (r: String) {
        let mut out = String::from_str("AndVariable");
        out.append(" index=");
        self.index.show_param(&mut out);
        out.append(" source=");
        self.source.show_param(&mut out);
        out.append(" argument=");
        self.argument.show_param(&mut out);
        assert(out@ =~= self.text());
        out
    }
}

impl Disasm for AndVariable {
    open spec fn size() -> nat {
        4
    }

    open spec fn decoded(bin: Seq<u8>, at: int) -> Self {
        AndVariable {
            index: u8::param_at(bin, at),
            source: u8::param_at(bin, at + 1),
            argument: i16::param_at(bin, at + 2),
        }
    }

    fn disasm(bin: &[u8], pc: &mut usize) -> (r: Result<Self, Error>) {
        let index = u8::disasm_param(bin, pc)?;
        let source = u8::disasm_param(bin, pc)?;
        let argument = i16::disasm_param(bin, pc)?;
        Ok(AndVariable { index, source, argument })
    }

    proof fn round_trip(self, bin: Seq<u8>, at: int) {
        self.encoded_size();
        assert(self.encoding().subrange(0, 1) =~= self.index.param_bytes());
        lemma_read_part(self.index, bin, at, self.encoding(), 0);
        assert(self.encoding().subrange(1, 2) =~= self.source.param_bytes());
        lemma_read_part(self.source, bin, at, self.encoding(), 1);
        assert(self.encoding().subrange(2, 4) =~= self.argument.param_bytes());
        lemma_read_part(self.argument, bin, at, self.encoding(), 2);
    }

    proof fn encoded_size(self) {
        self.index.lemma_width();
        self.source.lemma_width();
        self.argument.lemma_width();
    }
}

/// Ors a value into a variable, bit by bit.
#[derive(Debug, Clone, Copy, PartialEq, Eq)]
pub struct OrVariable {
    /// The variable, 0 to 31.
    pub index: u8,
    /// Where the value comes from.
    pub source: u8,
    /// The argument of the source.
    pub argument: i16,
}

impl Opcode for OrVariable {
    open spec fn opcode(&self) -> u8 {
        0x94
    }

    open spec fn encoding(&self) -> Seq<u8> {
        self.index.param_bytes() + self.source.param_bytes() + self.argument.param_bytes()
    }

    open spec fn text(&self) -> Seq<char> {
        "OrVariable"@ + " index="@ + self.index.param_text() + " source="@
            + self.source.param_text() + " argument="@ + self.argument.param_text()
    }

    fn request_opcode(&self) -> (r: u8) {
        0x94
    }

    fn encode(&self) -> (r: Vec<u8>) {
        let mut buf: Vec<u8> = Vec::new();
        self.index.write_param(&mut buf);
        self.source.write_param(&mut buf);
        self.argument.write_param(&mut buf);
        assert(buf@ =~= self.encoding());
        buf
    }

    fn to_string(&self) -> (r: String) {
        let mut out = String::from_str("OrVariable");
        out.append(" index=");
        self.index.show_param(&mut out);
        out.append(" source=");
        self.source.show_param(&mut out);
        out.append(" argument=");
        self.argument.show_param(&mut out);
        assert(out@ =~= self.text());
        out
    }
}

impl Disasm for OrVariable {
    open spec fn size() -> nat {
        4
    }

    open spec fn decoded(bin: Seq<u8>, at: int) -> Self {
        OrVariable {
            index: u8::param_at(bin, at),
            source: u8::param_at(bin, at + 1),
            argument: i16::param_at(bin, at + 2),
        }
    }

    fn disasm(bin: &[u8], pc: &mut usize) -> (r: Result<Self, Error>) {
        let index = u8::disasm_param(bin, pc)?;
        let source = u8::disasm_param(bin, pc)?;
        let argument = i16::disasm_param(bin, pc)?;
        Ok(OrVariable { index, source, argument })
    }

    proof fn round_trip(self, bin: Seq<u8>, at: int) {
        self.encoded_size();
        assert(self.encoding().subrange(0, 1) =~= self.index.param_bytes());
        lemma_read_part(self.index, bin, at, self.encoding(), 0);
        assert(self.encoding().subrange(1, 2) =~= self.source.param_bytes());
        lemma_read_part(self.source, bin, at, self.encoding(), 1);
        assert(self.encoding().subrange(2, 4) =~= self.argument.param_bytes());
        lemma_read_part(self.argument, bin, at, self.encoding(), 2);
    }

    proof fn encoded_size(self) {
        self.index.lemma_width();
        self.source.lemma_width();
        self.argument.lemma_width();
    }
}

} // verus!
