//! Opcodes that set up sensors and timers.

use vstd::prelude::*;
use vstd::string::StringExecFns;
use crate::errors::Error;
use crate::opcodes::{Disasm, Opcode};
use crate::opcodes::params::{DisasmParam, lemma_read_part, WriteParam};

verus! {

/// Sets the type of a sensor.
#[derive(Debug, Clone, Copy, PartialEq, Eq)]
pub struct SetSensorType {
    /// The sensor, 0 to 2.
    pub sensor: u8,
    /// The type of the sensor.
    pub type_: u8,
}

impl Opcode for SetSensorType {
    open spec fn opcode(&self) -> u8 {
        0x32
    }

    open spec fn encoding(&self) -> Seq<u8> {
        self.sensor.param_bytes() + self.type_.param_bytes()
    }

    open spec fn text(&self) -> Seq<char> {
        "SetSensorType"@ + " sensor="@ + self.sensor.param_text() + " type_="@
            + self.type_.param_text()
    }

    fn request_opcode(&self) -> (r: u8) {
        0x32
    }

    fn encode(&self) -> (r: Vec<u8>) {
        let mut buf: Vec<u8> = Vec::new();
        self.sensor.write_param(&mut buf);
        self.type_.write_param(&mut buf);
        assert(buf@ =~= self.encoding());
        buf
    }

    fn to_string(&self) -> (r: String) {
        let mut out = String::from_str("SetSensorType");
        out.append(" sensor=");
        self.sensor.show_param(&mut out);
        out.append(" type_=");
        self.type_.show_param(&mut out);
        assert(out@ =~= self.text());
        out
    }
}

impl Disasm for SetSensorType {
    open spec fn size() -> nat {
        2
    }

    open spec fn decoded(bin: Seq<u8>, at: int) -> Self {
        SetSensorType {
            sensor: u8::param_at(bin, at),
            type_: u8::param_at(bin, at + 1),
        }
    }

    fn disasm(bin: &[u8], pc: &mut usize) -> (r: Result<Self, Error>) {
        let sensor = u8::disasm_param(bin, pc)?;
        let type_ = u8::disasm_param(bin, pc)?;
        Ok(SetSensorType { sensor, type_ })
    }

    proof fn round_trip(self, bin: Seq<u8>, at: int) {
        self.encoded_size();
        assert(self.encoding().subrange(0, 1) =~= self.sensor.param_bytes());
        lemma_read_part(self.sensor, bin, at, self.encoding(), 0);
        assert(self.encoding().subrange(1, 2) =~= self.type_.param_bytes());
        lemma_read_part(self.type_, bin, at, self.encoding(), 1);
    }

    proof fn encoded_size(self) {
        self.sensor.lemma_width();
        self.type_.lemma_width();
    }
}

/// Sets slope and mode of a sensor.
#[derive(Debug, Clone, Copy, PartialEq, Eq)]
pub struct SetSensorMode {
    /// The sensor, 0 to 2.
    pub sensor: u8,
    /// Slope and mode.
    pub code: u8,
}

impl Opcode for SetSensorMode {
    open spec fn opcode(&self) -> u8 {
        0x42
    }

    open spec fn encoding(&self) -> Seq<u8> {
        self.sensor.param_bytes() + self.code.param_bytes()
    }

    open spec fn text(&self) -> Seq<char> {
        "SetSensorMode"@ + " sensor="@ + self.sensor.param_text() + " code="@
            + self.code.param_text()
    }

    fn request_opcode(&self) -> (r: u8) {
        0x42
    }

    fn encode(&self) -> (r: Vec<u8>) {
        let mut buf: Vec<u8> = Vec::new();
        self.sensor.write_param(&mut buf);
        self.code.write_param(&mut buf);
        assert(buf@ =~= self.encoding());
        buf
    }

    fn to_string(&self) -> (r: String) {
        let mut out = String::from_str("SetSensorMode");
        out.append(" sensor=");
        self.sensor.show_param(&mut out);
        out.append(" code=");
        self.code.show_param(&mut out);
        assert(out@ =~= self.text());
        out
    }
}

impl Disasm for SetSensorMode {
    open spec fn size() -> nat {
        2
    }

    open spec fn decoded(bin: Seq<u8>, at: int) -> Self {
        SetSensorMode {
            sensor: u8::param_at(bin, at),
            code: u8::param_at(bin, at + 1),
        }
    }

    fn disasm(bin: &[u8], pc: &mut usize) -> (r: Result<Self, Error>) {
        let sensor = u8::disasm_param(bin, pc)?;
        let code = u8::disasm_param(bin, pc)?;
        Ok(SetSensorMode { sensor, code })
    }

    proof fn round_trip(self, bin: Seq<u8>, at: int) {
        self.encoded_size();
        assert(self.encoding().subrange(0, 1) =~= self.sensor.param_bytes());
        lemma_read_part(self.sensor, bin, at, self.encoding(), 0);
        assert(self.encoding().subrange(1, 2) =~= self.code.param_bytes());
        lemma_read_part(self.code, bin, at, self.encoding(), 1);
    }

    proof fn encoded_size(self) {
        self.sensor.lemma_width();
        self.code.lemma_width();
    }
}

/// Resets a timer.
#[derive(Debug, Clone, Copy, PartialEq, Eq)]
pub struct ClearTimer {
    /// The timer, 0 to 3.
    pub timer: u8,
}

impl Opcode for ClearTimer {
    open spec fn opcode(&self) -> u8 {
        0xa1
    }

    open spec fn encoding(&self) -> Seq<u8> {
        self.timer.param_bytes()
    }

    open spec fn text(&self) -> Seq<char> {
        "ClearTimer"@ + " timer="@ + self.timer.param_text()
    }

    fn request_opcode(&self) -> (r: u8) {
        0xa1
    }

    fn encode(&self) -> (r: Vec<u8>) {
        let mut buf: Vec<u8> = Vec::new();
        self.timer.write_param(&mut buf);
        assert(buf@ =~= self.encoding());
        buf
    }

    fn to_string(&self) -> (r: String) {
        let mut out = String::from_str("ClearTimer");
        out.append(" timer=");
        self.timer.show_param(&mut out);
        assert(out@ =~= self.text());
        out
    }
}

impl Disasm for ClearTimer {
    open spec fn size() -> nat {
        1
    }

    open spec fn decoded(bin: Seq<u8>, at: int) -> Self {
        ClearTimer {
            timer: u8::param_at(bin, at),
        }
    }

    fn disasm(bin: &[u8], pc: &mut usize) -> (r: Result<Self, Error>) {
        let timer = u8::disasm_param(bin, pc)?;
        Ok(ClearTimer { timer })
    }

    proof fn round_trip(self, bin: Seq<u8>, at: int) {
        self.encoded_size();
        assert(self.encoding().subrange(0, 1) =~= self.timer.param_bytes());
        lemma_read_part(self.timer, bin, at, self.encoding(), 0);
    }

    proof fn encoded_size(self) {
        self.timer.lemma_width();
    }
}

/// Clears the value of a sensor.
#[derive(Debug, Clone, Copy, PartialEq, Eq)]
pub struct ClearSensorValue {
    /// The sensor, 0 to 2.
    pub sensor: u8,
}

impl Opcode for ClearSensorValue {
    open spec fn opcode(&self) -> u8 {
        0xd1
    }

    open spec fn encoding(&self) -> Seq<u8> {
        self.sensor.param_bytes()
    }

    open spec fn text(&self) -> Seq<char> {
        "ClearSensorValue"@ + " sensor="@ + self.sensor.param_text()
    }

    fn request_opcode(&self) -> (r: u8) {
        0xd1
    }

    fn encode(&self) -> (r: Vec<u8>) {
        let mut buf: Vec<u8> = Vec::new();
        self.sensor.write_param(&mut buf);
        assert(buf@ =~= self.encoding());
        buf
    }

    fn to_string(&self) -> (r: String) {
        let mut out = String::from_str("ClearSensorValue");
        out.append(" sensor=");
        self.sensor.show_param(&mut out);
        assert(out@ =~= self.text());
        out
    }
}

impl Disasm for ClearSensorValue {
    open spec fn size() -> nat {
        1
    }

    open spec fn decoded(bin: Seq<u8>, at: int) -> Self {
        ClearSensorValue {
            sensor: u8::param_at(bin, at),
        }
    }

    fn disasm(bin: &[u8], pc: &mut usize) -> (r: Result<Self, Error>) {
        let sensor = u8::disasm_param(bin, pc)?;
        Ok(ClearSensorValue { sensor })
    }

    proof fn round_trip(self, bin: Seq<u8>, at: int) {
        self.encoded_size();
        assert(self.encoding().subrange(0, 1) =~= self.sensor.param_bytes());
        lemma_read_part(self.sensor, bin, at, self.encoding(), 0);
    }

    proof fn encoded_size(self) {
        self.sensor.lemma_width();
    }
}

} // verus!
