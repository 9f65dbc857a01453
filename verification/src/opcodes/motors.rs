//! Opcodes that drive the motors.

use vstd::prelude::*;
use vstd::string::StringExecFns;
use crate::errors::Error;
use crate::opcodes::{Disasm, Opcode};
use crate::opcodes::params::{DisasmParam, lemma_read_part, WriteParam};

verus! {

/// Sets the power of motors.
#[derive(Debug, Clone, Copy, PartialEq, Eq)]
pub struct SetMotorPower {
    /// The motors, as a bit field.
    pub motors: u8,
    /// Where the value comes from.
    pub source: u8,
    /// The argument of the source.
    pub argument: u8,
}

impl Opcode for SetMotorPower {
    open spec fn opcode(&self) -> u8 {
        0x13
    }

    open spec fn encoding(&self) -> Seq<u8> {
        self.motors.param_bytes() + self.source.param_bytes() + self.argument.param_bytes()
    }

    open spec fn text(&self) -> Seq<char> {
        "SetMotorPower"@ + " motors="@ + self.motors.param_text() + " source="@
            + self.source.param_text() + " argument="@ + self.argument.param_text()
    }

    fn request_opcode(&self) -> (r: u8) {
        0x13
    }

    fn encode(&self) -> (r: Vec<u8>) {
        let mut buf: Vec<u8> = Vec::new();
        self.motors.write_param(&mut buf);
        self.source.write_param(&mut buf);
        self.argument.write_param(&mut buf);
        assert(buf@ =~= self.encoding());
        buf
    }

    fn to_string(&self) -> (r: String) {
        let mut out = String::from_str("SetMotorPower");
        out.append(" motors=");
        self.motors.show_param(&mut out);
        out.append(" source=");
        self.source.show_param(&mut out);
        out.append(" argument=");
        self.argument.show_param(&mut out);
        assert(out@ =~= self.text());
        out
    }
}

impl Disasm for SetMotorPower {
    open spec fn size() -> nat {
        3
    }

    open spec fn decoded(bin: Seq<u8>, at: int) -> Self {
        SetMotorPower {
            motors: u8::param_at(bin, at),
            source: u8::param_at(bin, at + 1),
            argument: u8::param_at(bin, at + 2),
        }
    }

    fn disasm(bin: &[u8], pc: &mut usize) -> (r: Result<Self, Error>) {
        let motors = u8::disasm_param(bin, pc)?;
        let source = u8::disasm_param(bin, pc)?;
        let argument = u8::disasm_param(bin, pc)?;
        Ok(SetMotorPower { motors, source, argument })
    }

    proof fn round_trip(self, bin: Seq<u8>, at: int) {
        self.encoded_size();
        assert(self.encoding().subrange(0, 1) =~= self.motors.param_bytes());
        lemma_read_part(self.motors, bin, at, self.encoding(), 0);
        assert(self.encoding().subrange(1, 2) =~= self.source.param_bytes());
        lemma_read_part(self.source, bin, at, self.encoding(), 1);
        assert(self.encoding().subrange(2, 3) =~= self.argument.param_bytes());
        lemma_read_part(self.argument, bin, at, self.encoding(), 2);
    }

    proof fn encoded_size(self) {
        self.motors.lemma_width();
        self.source.lemma_width();
        self.argument.lemma_width();
    }
}

/// Turns motors on or off, or lets them float.
#[derive(Debug, Clone, Copy, PartialEq, Eq)]
pub struct SetMotorOnOff {
    /// The motors, with the flags for on, off or float.
    pub code: u8,
}

impl Opcode for SetMotorOnOff {
    open spec fn opcode(&self) -> u8 {
        0x21
    }

    open spec fn encoding(&self) -> Seq<u8> {
        self.code.param_bytes()
    }

    open spec fn text(&self) -> Seq<char> {
        "SetMotorOnOff"@ + " code="@ + self.code.param_text()
    }

    fn request_opcode(&self) -> (r: u8) {
        0x21
    }

    fn encode(&self) -> (r: Vec<u8>) {
        let mut buf: Vec<u8> = Vec::new();
        self.code.write_param(&mut buf);
        assert(buf@ =~= self.encoding());
        buf
    }

    fn to_string(&self) -> (r: String) {
        let mut out = String::from_str("SetMotorOnOff");
        out.append(" code=");
        self.code.show_param(&mut out);
        assert(out@ =~= self.text());
        out
    }
}

impl Disasm for SetMotorOnOff {
    open spec fn size() -> nat {
        1
    }

    open spec fn decoded(bin: Seq<u8>, at: int) -> Self {
        SetMotorOnOff {
            code: u8::param_at(bin, at),
        }
    }

    fn disasm(bin: &[u8], pc: &mut usize) -> (r: Result<Self, Error>) {
        let code = u8::disasm_param(bin, pc)?;
        Ok(SetMotorOnOff { code })
    }

    proof fn round_trip(self, bin: Seq<u8>, at: int) {
        self.encoded_size();
        assert(self.encoding().subrange(0, 1) =~= self.code.param_bytes());
        lemma_read_part(self.code, bin, at, self.encoding(), 0);
    }

    proof fn encoded_size(self) {
        self.code.lemma_width();
    }
}

/// Sets the direction of motors.
#[derive(Debug, Clone, Copy, PartialEq, Eq)]
pub struct SetMotorDirection {
    /// The motors, with the flag for the direction.
    pub code: u8,
}

impl Opcode for SetMotorDirection {
    open spec fn opcode(&self) -> u8 {
        0xe1
    }

    open spec fn encoding(&self) -> Seq<u8> {
        self.code.param_bytes()
    }

    open spec fn text(&self) -> Seq<char> {
        "SetMotorDirection"@ + " code="@ + self.code.param_text()
    }

    fn request_opcode(&self) -> (r: u8) {
        0xe1
    }

    fn encode(&self) -> (r: Vec<u8>) {
        let mut buf: Vec<u8> = Vec::new();
        self.code.write_param(&mut buf);
        assert(buf@ =~= self.encoding());
        buf
    }

    fn to_string(&self) -> (r: String) {
        let mut out = String::from_str("SetMotorDirection");
        out.append(" code=");
        self.code.show_param(&mut out);
        assert(out@ =~= self.text());
        out
    }
}

impl Disasm for SetMotorDirection {
    open spec fn size() -> nat {
        1
    }

    open spec fn decoded(bin: Seq<u8>, at: int) -> Self {
        SetMotorDirection {
            code: u8::param_at(bin, at),
        }
    }

    fn disasm(bin: &[u8], pc: &mut usize) -> (r: Result<Self, Error>) {
        let code = u8::disasm_param(bin, pc)?;
        Ok(SetMotorDirection { code })
    }

    proof fn round_trip(self, bin: Seq<u8>, at: int) {
        self.encoded_size();
        assert(self.encoding().subrange(0, 1) =~= self.code.param_bytes());
        lemma_read_part(self.code, bin, at, self.encoding(), 0);
    }

    proof fn encoded_size(self) {
        self.code.lemma_width();
    }
}

} // verus!
