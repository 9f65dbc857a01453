//! Opcodes that change the flow of a program.

use vstd::prelude::*;
use vstd::string::StringExecFns;
use crate::errors::Error;
use crate::opcodes::{Disasm, Opcode};
use crate::opcodes::params::{DisasmParam, lemma_read_part, WriteParam};

verus! {

/// Branches, always, over a short distance.
#[derive(Debug, Clone, Copy, PartialEq, Eq)]
pub struct BranchAlwaysNear {
    /// Direction and low seven bits of the distance.
    pub offset: u8,
}

impl Opcode for BranchAlwaysNear {
    open spec fn opcode(&self) -> u8 {
        0x27
    }

    open spec fn encoding(&self) -> Seq<u8> {
        self.offset.param_bytes()
    }

    open spec fn text(&self) -> Seq<char> {
        "BranchAlwaysNear"@ + " offset="@ + self.offset.param_text()
    }

    fn request_opcode(&self) -> (r: u8) {
        0x27
    }

    fn encode(&self) -> (r: Vec<u8>) {
        let mut buf: Vec<u8> = Vec::new();
        self.offset.write_param(&mut buf);
        assert(buf@ =~= self.encoding());
        buf
    }

    fn to_string(&self) -> (r: String) {
        let mut out = String::from_str("BranchAlwaysNear");
        out.append(" offset=");
        self.offset.show_param(&mut out);
        assert(out@ =~= self.text());
        out
    }
}

impl Disasm for BranchAlwaysNear {
    open spec fn size() -> nat {
        1
    }

    open spec fn decoded(bin: Seq<u8>, at: int) -> Self {
        BranchAlwaysNear {
            offset: u8::param_at(bin, at),
        }
    }

    fn disasm(bin: &[u8], pc: &mut usize) -> (r: Result<Self, Error>) {
        let offset = u8::disasm_param(bin, pc)?;
        Ok(BranchAlwaysNear { offset })
    }

    proof fn round_trip(self, bin: Seq<u8>, at: int) {
        self.encoded_size();
        assert(self.encoding().subrange(0, 1) =~= self.offset.param_bytes());
        lemma_read_part(self.offset, bin, at, self.encoding(), 0);
    }

    proof fn encoded_size(self) {
        self.offset.lemma_width();
    }
}

/// Branches, always, over a long distance.
#[derive(Debug, Clone, Copy, PartialEq, Eq)]
pub struct BranchAlwaysFar {
    /// Direction and low seven bits of the distance.
    pub offset: u8,
    /// The distance in units of 128.
    pub extension: u8,
}

impl Opcode for BranchAlwaysFar {
    open spec fn opcode(&self) -> u8 {
        0x72
    }

    open spec fn encoding(&self) -> Seq<u8> {
        self.offset.param_bytes() + self.extension.param_bytes()
    }

    open spec fn text(&self) -> Seq<char> {
        "BranchAlwaysFar"@ + " offset="@ + self.offset.param_text() + " extension="@
            + self.extension.param_text()
    }

    fn request_opcode(&self) -> (r: u8) {
        0x72
    }

    fn encode(&self) -> (r: Vec<u8>) {
        let mut buf: Vec<u8> = Vec::new();
        self.offset.write_param(&mut buf);
        self.extension.write_param(&mut buf);
        assert(buf@ =~= self.encoding());
        buf
    }

    fn to_string(&self) -> (r: String) {
        let mut out = String::from_str("BranchAlwaysFar");
        out.append(" offset=");
        self.offset.show_param(&mut out);
        out.append(" extension=");
        self.extension.show_param(&mut out);
        assert(out@ =~= self.text());
        out
    }
}

impl Disasm for BranchAlwaysFar {
    open spec fn size() -> nat {
        2
    }

    open spec fn decoded(bin: Seq<u8>, at: int) -> Self {
        BranchAlwaysFar {
            offset: u8::param_at(bin, at),
            extension: u8::param_at(bin, at + 1),
        }
    }

    fn disasm(bin: &[u8], pc: &mut usize) -> (r: Result<Self, Error>) {
        let offset = u8::disasm_param(bin, pc)?;
        let extension = u8::disasm_param(bin, pc)?;
        Ok(BranchAlwaysFar { offset, extension })
    }

    proof fn round_trip(self, bin: Seq<u8>, at: int) {
        self.encoded_size();
        assert(self.encoding().subrange(0, 1) =~= self.offset.param_bytes());
        lemma_read_part(self.offset, bin, at, self.encoding(), 0);
        assert(self.encoding().subrange(1, 2) =~= self.extension.param_bytes());
        lemma_read_part(self.extension, bin, at, self.encoding(), 1);
    }

    proof fn encoded_size(self) {
        self.offset.lemma_width();
        self.extension.lemma_width();
    }
}

/// Decrements the loop counter and branches over a short distance when the loop is done.
#[derive(Debug, Clone, Copy, PartialEq, Eq)]
pub struct DecrementLoopCounterNear {
    /// Direction and low seven bits of the distance.
    pub offset: u8,
}

impl Opcode for DecrementLoopCounterNear {
    open spec fn opcode(&self) -> u8 {
        0x37
    }

    open spec fn encoding(&self) -> Seq<u8> {
        self.offset.param_bytes()
    }

    open spec fn text(&self) -> Seq<char> {
        "DecrementLoopCounterNear"@ + " offset="@ + self.offset.param_text()
    }

    fn request_opcode(&self) -> (r: u8) {
        0x37
    }

    fn encode(&self) -> (r: Vec<u8>) {
        let mut buf: Vec<u8> = Vec::new();
        self.offset.write_param(&mut buf);
        assert(buf@ =~= self.encoding());
        buf
    }

    fn to_string(&self) -> (r: String) {
        let mut out = String::from_str("DecrementLoopCounterNear");
        out.append(" offset=");
        self.offset.show_param(&mut out);
        assert(out@ =~= self.text());
        out
    }
}

impl Disasm for DecrementLoopCounterNear {
    open spec fn size() -> nat {
        1
    }

    open spec fn decoded(bin: Seq<u8>, at: int) -> Self {
        DecrementLoopCounterNear {
            offset: u8::param_at(bin, at),
        }
    }

    fn disasm(bin: &[u8], pc: &mut usize) -> (r: Result<Self, Error>) {
        let offset = u8::disasm_param(bin, pc)?;
        Ok(DecrementLoopCounterNear { offset })
    }

    proof fn round_trip(self, bin: Seq<u8>, at: int) {
        self.encoded_size();
        assert(self.encoding().subrange(0, 1) =~= self.offset.param_bytes());
        lemma_read_part(self.offset, bin, at, self.encoding(), 0);
    }

    proof fn encoded_size(self) {
        self.offset.lemma_width();
    }
}

/// Decrements the loop counter and branches over a long distance when the loop is done.
#[derive(Debug, Clone, Copy, PartialEq, Eq)]
pub struct DecrementLoopCounterFar {
    /// Direction and low seven bits of the distance.
    pub offset: u8,
    /// The distance in units of 128.
    pub extension: u8,
}

impl Opcode for DecrementLoopCounterFar {
    open spec fn opcode(&self) -> u8 {
        0x92
    }

    open spec fn encoding(&self) -> Seq<u8> {
        self.offset.param_bytes() + self.extension.param_bytes()
    }

    open spec fn text(&self) -> Seq<char> {
        "DecrementLoopCounterFar"@ + " offset="@ + self.offset.param_text() + " extension="@
            + self.extension.param_text()
    }

    fn request_opcode(&self) -> (r: u8) {
        0x92
    }

    fn encode(&self) -> (r: Vec<u8>) {
        let mut buf: Vec<u8> = Vec::new();
        self.offset.write_param(&mut buf);
        self.extension.write_param(&mut buf);
        assert(buf@ =~= self.encoding());
        buf
    }

    fn to_string(&self) -> (r: String) {
        let mut out = String::from_str("DecrementLoopCounterFar");
        out.append(" offset=");
        self.offset.show_param(&mut out);
        out.append(" extension=");
        self.extension.show_param(&mut out);
        assert(out@ =~= self.text());
        out
    }
}

impl Disasm for DecrementLoopCounterFar {
    open spec fn size() -> nat {
        2
    }

    open spec fn decoded(bin: Seq<u8>, at: int) -> Self {
        DecrementLoopCounterFar {
            offset: u8::param_at(bin, at),
            extension: u8::param_at(bin, at + 1),
        }
    }

    fn disasm(bin: &[u8], pc: &mut usize) -> (r: Result<Self, Error>) {
        let offset = u8::disasm_param(bin, pc)?;
        let extension = u8::disasm_param(bin, pc)?;
        Ok(DecrementLoopCounterFar { offset, extension })
    }

    proof fn round_trip(self, bin: Seq<u8>, at: int) {
        self.encoded_size();
        assert(self.encoding().subrange(0, 1) =~= self.offset.param_bytes());
        lemma_read_part(self.offset, bin, at, self.encoding(), 0);
        assert(self.encoding().subrange(1, 2) =~= self.extension.param_bytes());
        lemma_read_part(self.extension, bin, at, self.encoding(), 1);
    }

    proof fn encoded_size(self) {
        self.offset.lemma_width();
        self.extension.lemma_width();
    }
}

/// Compares two values and branches over a short distance if the comparison fails.
#[derive(Debug, Clone, Copy, PartialEq, Eq)]
pub struct TestAndBranchNear {
    /// The comparison and the source of the first value.
    pub opsrc1: u8,
    /// The source of the second value.
    pub src2: u8,
    /// The argument of the first source.
    pub arg1: i16,
    /// The argument of the second source.
    pub arg2: u8,
    /// Direction and low seven bits of the distance.
    pub offset: u8,
}

impl Opcode for TestAndBranchNear {
    open spec fn opcode(&self) -> u8 {
        0x85
    }

    open spec fn encoding(&self) -> Seq<u8> {
        self.opsrc1.param_bytes() + self.src2.param_bytes() + self.arg1.param_bytes()
            + self.arg2.param_bytes() + self.offset.param_bytes()
    }

    open spec fn text(&self) -> Seq<char> {
        "TestAndBranchNear"@ + " opsrc1="@ + self.opsrc1.param_text() + " src2="@
            + self.src2.param_text() + " arg1="@ + self.arg1.param_text() + " arg2="@
            + self.arg2.param_text() + " offset="@ + self.offset.param_text()
    }

    fn request_opcode(&self) -> (r: u8) {
        0x85
    }

    fn encode(&self) -> (r: Vec<u8>) {
        let mut buf: Vec<u8> = Vec::new();
        self.opsrc1.write_param(&mut buf);
        self.src2.write_param(&mut buf);
        self.arg1.write_param(&mut buf);
        self.arg2.write_param(&mut buf);
        self.offset.write_param(&mut buf);
        assert(buf@ =~= self.encoding());
        buf
    }

    fn to_string(&self) -> (r: String) {
        let mut out = String::from_str("TestAndBranchNear");
        out.append(" opsrc1=");
        self.opsrc1.show_param(&mut out);
        out.append(" src2=");
        self.src2.show_param(&mut out);
        out.append(" arg1=");
        self.arg1.show_param(&mut out);
        out.append(" arg2=");
        self.arg2.show_param(&mut out);
        out.append(" offset=");
        self.offset.show_param(&mut out);
        assert(out@ =~= self.text());
        out
    }
}

impl Disasm for TestAndBranchNear {
    open spec fn size() -> nat {
        6
    }

    open spec fn decoded(bin: Seq<u8>, at: int) -> Self {
        TestAndBranchNear {
            opsrc1: u8::param_at(bin, at),
            src2: u8::param_at(bin, at + 1),
            arg1: i16::param_at(bin, at + 2),
            arg2: u8::param_at(bin, at + 4),
            offset: u8::param_at(bin, at + 5),
        }
    }

    fn disasm(bin: &[u8], pc: &mut usize) -> (r: Result<Self, Error>) {
        let opsrc1 = u8::disasm_param(bin, pc)?;
        let src2 = u8::disasm_param(bin, pc)?;
        let arg1 = i16::disasm_param(bin, pc)?;
        let arg2 = u8::disasm_param(bin, pc)?;
        let offset = u8::disasm_param(bin, pc)?;
        Ok(TestAndBranchNear { opsrc1, src2, arg1, arg2, offset })
    }

    proof fn round_trip(self, bin: Seq<u8>, at: int) {
        self.encoded_size();
        assert(self.encoding().subrange(0, 1) =~= self.opsrc1.param_bytes());
        lemma_read_part(self.opsrc1, bin, at, self.encoding(), 0);
        assert(self.encoding().subrange(1, 2) =~= self.src2.param_bytes());
        lemma_read_part(self.src2, bin, at, self.encoding(), 1);
        assert(self.encoding().subrange(2, 4) =~= self.arg1.param_bytes());
        lemma_read_part(self.arg1, bin, at, self.encoding(), 2);
        assert(self.encoding().subrange(4, 5) =~= self.arg2.param_bytes());
        lemma_read_part(self.arg2, bin, at, self.encoding(), 4);
        assert(self.encoding().subrange(5, 6) =~= self.offset.param_bytes());
        lemma_read_part(self.offset, bin, at, self.encoding(), 5);
    }

    proof fn encoded_size(self) {
        self.opsrc1.lemma_width();
        self.src2.lemma_width();
        self.arg1.lemma_width();
        self.arg2.lemma_width();
        self.offset.lemma_width();
    }
}

/// Compares two values and branches over a long distance if the comparison fails.
#[derive(Debug, Clone, Copy, PartialEq, Eq)]
pub struct TestAndBranchFar {
    /// The comparison and the source of the first value.
    pub opsrc1: u8,
    /// The source of the second value.
    pub src2: u8,
    /// The argument of the first source.
    pub arg1: i16,
    /// The argument of the second source.
    pub arg2: u8,
    /// Direction and low seven bits of the distance.
    pub offset: u8,
    /// The distance in units of 128.
    pub extension: u8,
}

impl Opcode for TestAndBranchFar {
    open spec fn opcode(&self) -> u8 {
        0x95
    }

    open spec fn encoding(&self) -> Seq<u8> {
        self.opsrc1.param_bytes() + self.src2.param_bytes() + self.arg1.param_bytes()
            + self.arg2.param_bytes() + self.offset.param_bytes() + self.extension.param_bytes()
    }

    open spec fn text(&self) -> Seq<char> {
        "TestAndBranchFar"@ + " opsrc1="@ + self.opsrc1.param_text() + " src2="@
            + self.src2.param_text() + " arg1="@ + self.arg1.param_text() + " arg2="@
            + self.arg2.param_text() + " offset="@ + self.offset.param_text() + " extension="@
            + self.extension.param_text()
    }

    fn request_opcode(&self) -> (r: u8) {
        0x95
    }

    fn encode(&self) -> (r: Vec<u8>) {
        let mut buf: Vec<u8> = Vec::new();
        self.opsrc1.write_param(&mut buf);
        self.src2.write_param(&mut buf);
        self.arg1.write_param(&mut buf);
        self.arg2.write_param(&mut buf);
        self.offset.write_param(&mut buf);
        self.extension.write_param(&mut buf);
        assert(buf@ =~= self.encoding());
        buf
    }

    fn to_string(&self) -> (r: String) {
        let mut out = String::from_str("TestAndBranchFar");
        out.append(" opsrc1=");
        self.opsrc1.show_param(&mut out);
        out.append(" src2=");
        self.src2.show_param(&mut out);
        out.append(" arg1=");
        self.arg1.show_param(&mut out);
        out.append(" arg2=");
        self.arg2.show_param(&mut out);
        out.append(" offset=");
        self.offset.show_param(&mut out);
        out.append(" extension=");
        self.extension.show_param(&mut out);
        assert(out@ =~= self.text());
        out
    }
}

impl Disasm for TestAndBranchFar {
    open spec fn size() -> nat {
        7
    }

    open spec fn decoded(bin: Seq<u8>, at: int) -> Self {
        TestAndBranchFar {
            opsrc1: u8::param_at(bin, at),
            src2: u8::param_at(bin, at + 1),
            arg1: i16::param_at(bin, at + 2),
            arg2: u8::param_at(bin, at + 4),
            offset: u8::param_at(bin, at + 5),
            extension: u8::param_at(bin, at + 6),
        }
    }

    fn disasm(bin: &[u8], pc: &mut usize) -> (r: Result<Self, Error>) {
        let opsrc1 = u8::disasm_param(bin, pc)?;
        let src2 = u8::disasm_param(bin, pc)?;
        let arg1 = i16::disasm_param(bin, pc)?;
        let arg2 = u8::disasm_param(bin, pc)?;
        let offset = u8::disasm_param(bin, pc)?;
        let extension = u8::disasm_param(bin, pc)?;
        Ok(TestAndBranchFar { opsrc1, src2, arg1, arg2, offset, extension })
    }

    proof fn round_trip(self, bin: Seq<u8>, at: int) {
        self.encoded_size();
        assert(self.encoding().subrange(0, 1) =~= self.opsrc1.param_bytes());
        lemma_read_part(self.opsrc1, bin, at, self.encoding(), 0);
        assert(self.encoding().subrange(1, 2) =~= self.src2.param_bytes());
        lemma_read_part(self.src2, bin, at, self.encoding(), 1);
        assert(self.encoding().subrange(2, 4) =~= self.arg1.param_bytes());
        lemma_read_part(self.arg1, bin, at, self.encoding(), 2);
        assert(self.encoding().subrange(4, 5) =~= self.arg2.param_bytes());
        lemma_read_part(self.arg2, bin, at, self.encoding(), 4);
        assert(self.encoding().subrange(5, 6) =~= self.offset.param_bytes());
        lemma_read_part(self.offset, bin, at, self.encoding(), 5);
        assert(self.encoding().subrange(6, 7) =~= self.extension.param_bytes());
        lemma_read_part(self.extension, bin, at, self.encoding(), 6);
    }

    proof fn encoded_size(self) {
        self.opsrc1.lemma_width();
        self.src2.lemma_width();
        self.arg1.lemma_width();
        self.arg2.lemma_width();
        self.offset.lemma_width();
        self.extension.lemma_width();
    }
}

} // verus!
