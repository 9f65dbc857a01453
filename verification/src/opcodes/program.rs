//! Opcodes that select, start, stop and delete programs, tasks and subroutines.

use vstd::prelude::*;
use vstd::string::StringExecFns;
use crate::errors::Error;
use crate::opcodes::{Disasm, Opcode};
use crate::opcodes::params::{DisasmParam, lemma_read_part, WriteParam};

verus! {

/// Calls a subroutine.
#[derive(Debug, Clone, Copy, PartialEq, Eq)]
pub struct CallSubroutine {
    /// The subroutine, 0 to 7.
    pub subroutine: u8,
}

impl Opcode for CallSubroutine {
    open spec fn opcode(&self) -> u8 {
        0x17
    }

    open spec fn encoding(&self) -> Seq<u8> {
        self.subroutine.param_bytes()
    }

    open spec fn text(&self) -> Seq<char> {
        "CallSubroutine"@ + " subroutine="@ + self.subroutine.param_text()
    }

    fn request_opcode(&self) -> (r: u8) {
        0x17
    }

    fn encode(&self) -> (r: Vec<u8>) {
        let mut buf: Vec<u8> = Vec::new();
        self.subroutine.write_param(&mut buf);
        assert(buf@ =~= self.encoding());
        buf
    }

    fn to_string(&self) -> (r: String) {
        let mut out = String::from_str("CallSubroutine");
        out.append(" subroutine=");
        self.subroutine.show_param(&mut out);
        assert(out@ =~= self.text());
        out
    }
}

impl Disasm for CallSubroutine {
    open spec fn size() -> nat {
        1
    }

    open spec fn decoded(bin: Seq<u8>, at: int) -> Self {
        CallSubroutine {
            subroutine: u8::param_at(bin, at),
        }
    }

    fn disasm(bin: &[u8], pc: &mut usize) -> (r: Result<Self, Error>) {
        let subroutine = u8::disasm_param(bin, pc)?;
        Ok(CallSubroutine { subroutine })
    }

    proof fn round_trip(self, bin: Seq<u8>, at: int) {
        self.encoded_size();
        assert(self.encoding().subrange(0, 1) =~= self.subroutine.param_bytes());
        lemma_read_part(self.subroutine, bin, at, self.encoding(), 0);
    }

    proof fn encoded_size(self) {
        self.subroutine.lemma_width();
    }
}

/// Deletes all tasks of the current program.
#[derive(Debug, Clone, Copy, PartialEq, Eq)]
pub struct DeleteAllTasks {}

impl Opcode for DeleteAllTasks {
    open spec fn opcode(&self) -> u8 {
        0x40
    }

    open spec fn encoding(&self) -> Seq<u8> {
        Seq::empty()
    }

    open spec fn text(&self) -> Seq<char> {
        "DeleteAllTasks"@
    }

    fn request_opcode(&self) -> (r: u8) {
        0x40
    }

    fn encode(&self) -> (r: Vec<u8>) {
        Vec::new()
    }

    fn to_string(&self) -> (r: String) {
        String::from_str("DeleteAllTasks")
    }
}

impl Disasm for DeleteAllTasks {
    open spec fn size() -> nat {
        0
    }

    open spec fn decoded(bin: Seq<u8>, at: int) -> Self {
        DeleteAllTasks {}
    }

    fn disasm(_bin: &[u8], _pc: &mut usize) -> (r: Result<Self, Error>) {
        Ok(DeleteAllTasks {})
    }

    proof fn round_trip(self, bin: Seq<u8>, at: int) {
    }

    proof fn encoded_size(self) {
    }
}

/// Waits for a time in 1/100ths of a second.
#[derive(Debug, Clone, Copy, PartialEq, Eq)]
pub struct Wait {
    /// Where the value comes from.
    pub source: u8,
    /// The argument of the source.
    pub argument: i16,
}

impl Opcode for Wait {
    open spec fn opcode(&self) -> u8 {
        0x43
    }

    open spec fn encoding(&self) -> Seq<u8> {
        self.source.param_bytes() + self.argument.param_bytes()
    }

    open spec fn text(&self) -> Seq<char> {
        "Wait"@ + " source="@ + self.source.param_text() + " argument="@
            + self.argument.param_text()
    }

    fn request_opcode(&self) -> (r: u8) {
        0x43
    }

    fn encode(&self) -> (r: Vec<u8>) {
        let mut buf: Vec<u8> = Vec::new();
        self.source.write_param(&mut buf);
        self.argument.write_param(&mut buf);
        assert(buf@ =~= self.encoding());
        buf
    }

    fn to_string(&self) -> (r: String) {
        let mut out = String::from_str("Wait");
        out.append(" source=");
        self.source.show_param(&mut out);
        out.append(" argument=");
        self.argument.show_param(&mut out);
        assert(out@ =~= self.text());
        out
    }
}

impl Disasm for Wait {
    open spec fn size() -> nat {
        3
    }

    open spec fn decoded(bin: Seq<u8>, at: int) -> Self {
        Wait {
            source: u8::param_at(bin, at),
            argument: i16::param_at(bin, at + 1),
        }
    }

    fn disasm(bin: &[u8], pc: &mut usize) -> (r: Result<Self, Error>) {
        let source = u8::disasm_param(bin, pc)?;
        let argument = i16::disasm_param(bin, pc)?;
        Ok(Wait { source, argument })
    }

    proof fn round_trip(self, bin: Seq<u8>, at: int) {
        self.encoded_size();
        assert(self.encoding().subrange(0, 1) =~= self.source.param_bytes());
        lemma_read_part(self.source, bin, at, self.encoding(), 0);
        assert(self.encoding().subrange(1, 3) =~= self.argument.param_bytes());
        lemma_read_part(self.argument, bin, at, self.encoding(), 1);
    }

    proof fn encoded_size(self) {
        self.source.lemma_width();
        self.argument.lemma_width();
    }
}

/// Stops all tasks.
#[derive(Debug, Clone, Copy, PartialEq, Eq)]
pub struct StopAllTasks {}

impl Opcode for StopAllTasks {
    open spec fn opcode(&self) -> u8 {
        0x50
    }

    open spec fn encoding(&self) -> Seq<u8> {
        Seq::empty()
    }

    open spec fn text(&self) -> Seq<char> {
        "StopAllTasks"@
    }

    fn request_opcode(&self) -> (r: u8) {
        0x50
    }

    fn encode(&self) -> (r: Vec<u8>) {
        Vec::new()
    }

    fn to_string(&self) -> (r: String) {
        String::from_str("StopAllTasks")
    }
}

impl Disasm for StopAllTasks {
    open spec fn size() -> nat {
        0
    }

    open spec fn decoded(bin: Seq<u8>, at: int) -> Self {
        StopAllTasks {}
    }

    fn disasm(_bin: &[u8], _pc: &mut usize) -> (r: Result<Self, Error>) {
        Ok(StopAllTasks {})
    }

    proof fn round_trip(self, bin: Seq<u8>, at: int) {
    }

    proof fn encoded_size(self) {
    }
}

/// Deletes a task.
#[derive(Debug, Clone, Copy, PartialEq, Eq)]
pub struct DeleteTask {
    /// The task, 0 to 9.
    pub task: u8,
}

impl Opcode for DeleteTask {
    open spec fn opcode(&self) -> u8 {
        0x61
    }

    open spec fn encoding(&self) -> Seq<u8> {
        self.task.param_bytes()
    }

    open spec fn text(&self) -> Seq<char> {
        "DeleteTask"@ + " task="@ + self.task.param_text()
    }

    fn request_opcode(&self) -> (r: u8) {
        0x61
    }

    fn encode(&self) -> (r: Vec<u8>) {
        let mut buf: Vec<u8> = Vec::new();
        self.task.write_param(&mut buf);
        assert(buf@ =~= self.encoding());
        buf
    }

    fn to_string(&self) -> (r: String) {
        let mut out = String::from_str("DeleteTask");
        out.append(" task=");
        self.task.show_param(&mut out);
        assert(out@ =~= self.text());
        out
    }
}

impl Disasm for DeleteTask {
    open spec fn size() -> nat {
        1
    }

    open spec fn decoded(bin: Seq<u8>, at: int) -> Self {
        DeleteTask {
            task: u8::param_at(bin, at),
        }
    }

    fn disasm(bin: &[u8], pc: &mut usize) -> (r: Result<Self, Error>) {
        let task = u8::disasm_param(bin, pc)?;
        Ok(DeleteTask { task })
    }

    proof fn round_trip(self, bin: Seq<u8>, at: int) {
        self.encoded_size();
        assert(self.encoding().subrange(0, 1) =~= self.task.param_bytes());
        lemma_read_part(self.task, bin, at, self.encoding(), 0);
    }

    proof fn encoded_size(self) {
        self.task.lemma_width();
    }
}

/// Deletes all subroutines of the current program.
#[derive(Debug, Clone, Copy, PartialEq, Eq)]
pub struct DeleteAllSubroutines {}

impl Opcode for DeleteAllSubroutines {
    open spec fn opcode(&self) -> u8 {
        0x70
    }

    open spec fn encoding(&self) -> Seq<u8> {
        Seq::empty()
    }

    open spec fn text(&self) -> Seq<char> {
        "DeleteAllSubroutines"@
    }

    fn request_opcode(&self) -> (r: u8) {
        0x70
    }

    fn encode(&self) -> (r: Vec<u8>) {
        Vec::new()
    }

    fn to_string(&self) -> (r: String) {
        String::from_str("DeleteAllSubroutines")
    }
}

impl Disasm for DeleteAllSubroutines {
    open spec fn size() -> nat {
        0
    }

    open spec fn decoded(bin: Seq<u8>, at: int) -> Self {
        DeleteAllSubroutines {}
    }

    fn disasm(_bin: &[u8], _pc: &mut usize) -> (r: Result<Self, Error>) {
        Ok(DeleteAllSubroutines {})
    }

    proof fn round_trip(self, bin: Seq<u8>, at: int) {
    }

    proof fn encoded_size(self) {
    }
}

/// Starts a task.
#[derive(Debug, Clone, Copy, PartialEq, Eq)]
pub struct StartTask {
    /// The task, 0 to 9.
    pub task: u8,
}

impl Opcode for StartTask {
    open spec fn opcode(&self) -> u8 {
        0x71
    }

    open spec fn encoding(&self) -> Seq<u8> {
        self.task.param_bytes()
    }

    open spec fn text(&self) -> Seq<char> {
        "StartTask"@ + " task="@ + self.task.param_text()
    }

    fn request_opcode(&self) -> (r: u8) {
        0x71
    }

    fn encode(&self) -> (r: Vec<u8>) {
        let mut buf: Vec<u8> = Vec::new();
        self.task.write_param(&mut buf);
        assert(buf@ =~= self.encoding());
        buf
    }

    fn to_string(&self) -> (r: String) {
        let mut out = String::from_str("StartTask");
        out.append(" task=");
        self.task.show_param(&mut out);
        assert(out@ =~= self.text());
        out
    }
}

impl Disasm for StartTask {
    open spec fn size() -> nat {
        1
    }

    open spec fn decoded(bin: Seq<u8>, at: int) -> Self {
        StartTask {
            task: u8::param_at(bin, at),
        }
    }

    fn disasm(bin: &[u8], pc: &mut usize) -> (r: Result<Self, Error>) {
        let task = u8::disasm_param(bin, pc)?;
        Ok(StartTask { task })
    }

    proof fn round_trip(self, bin: Seq<u8>, at: int) {
        self.encoded_size();
        assert(self.encoding().subrange(0, 1) =~= self.task.param_bytes());
        lemma_read_part(self.task, bin, at, self.encoding(), 0);
    }

    proof fn encoded_size(self) {
        self.task.lemma_width();
    }
}

/// Stops a task.
#[derive(Debug, Clone, Copy, PartialEq, Eq)]
pub struct StopTask {
    /// The task, 0 to 9.
    pub task: u8,
}

impl Opcode for StopTask {
    open spec fn opcode(&self) -> u8 {
        0x81
    }

    open spec fn encoding(&self) -> Seq<u8> {
        self.task.param_bytes()
    }

    open spec fn text(&self) -> Seq<char> {
        "StopTask"@ + " task="@ + self.task.param_text()
    }

    fn request_opcode(&self) -> (r: u8) {
        0x81
    }

    fn encode(&self) -> (r: Vec<u8>) {
        let mut buf: Vec<u8> = Vec::new();
        self.task.write_param(&mut buf);
        assert(buf@ =~= self.encoding());
        buf
    }

    fn to_string(&self) -> (r: String) {
        let mut out = String::from_str("StopTask");
        out.append(" task=");
        self.task.show_param(&mut out);
        assert(out@ =~= self.text());
        out
    }
}

impl Disasm for StopTask {
    open spec fn size() -> nat {
        1
    }

    open spec fn decoded(bin: Seq<u8>, at: int) -> Self {
        StopTask {
            task: u8::param_at(bin, at),
        }
    }

    fn disasm(bin: &[u8], pc: &mut usize) -> (r: Result<Self, Error>) {
        let task = u8::disasm_param(bin, pc)?;
        Ok(StopTask { task })
    }

    proof fn round_trip(self, bin: Seq<u8>, at: int) {
        self.encoded_size();
        assert(self.encoding().subrange(0, 1) =~= self.task.param_bytes());
        lemma_read_part(self.task, bin, at, self.encoding(), 0);
    }

    proof fn encoded_size(self) {
        self.task.lemma_width();
    }
}

/// Sets the counter of the innermost loop.
#[derive(Debug, Clone, Copy, PartialEq, Eq)]
pub struct SetLoopCounter {
    /// Where the value comes from.
    pub source: u8,
    /// The argument of the source.
    pub argument: u8,
}

impl Opcode for SetLoopCounter {
    open spec fn opcode(&self) -> u8 {
        0x82
    }

    open spec fn encoding(&self) -> Seq<u8> {
        self.source.param_bytes() + self.argument.param_bytes()
    }

    open spec fn text(&self) -> Seq<char> {
        "SetLoopCounter"@ + " source="@ + self.source.param_text() + " argument="@
            + self.argument.param_text()
    }

    fn request_opcode(&self) -> (r: u8) {
        0x82
    }

    fn encode(&self) -> (r: Vec<u8>) {
        let mut buf: Vec<u8> = Vec::new();
        self.source.write_param(&mut buf);
        self.argument.write_param(&mut buf);
        assert(buf@ =~= self.encoding());
        buf
    }

    fn to_string(&self) -> (r: String) {
        let mut out = String::from_str("SetLoopCounter");
        out.append(" source=");
        self.source.show_param(&mut out);
        out.append(" argument=");
        self.argument.show_param(&mut out);
        assert(out@ =~= self.text());
        out
    }
}

impl Disasm for SetLoopCounter {
    open spec fn size() -> nat {
        2
    }

    open spec fn decoded(bin: Seq<u8>, at: int) -> Self {
        SetLoopCounter {
            source: u8::param_at(bin, at),
            argument: u8::param_at(bin, at + 1),
        }
    }

    fn disasm(bin: &[u8], pc: &mut usize) -> (r: Result<Self, Error>) {
        let source = u8::disasm_param(bin, pc)?;
        let argument = u8::disasm_param(bin, pc)?;
        Ok(SetLoopCounter { source, argument })
    }

    proof fn round_trip(self, bin: Seq<u8>, at: int) {
        self.encoded_size();
        assert(self.encoding().subrange(0, 1) =~= self.source.param_bytes());
        lemma_read_part(self.source, bin, at, self.encoding(), 0);
        assert(self.encoding().subrange(1, 2) =~= self.argument.param_bytes());
        lemma_read_part(self.argument, bin, at, self.encoding(), 1);
    }

    proof fn encoded_size(self) {
        self.source.lemma_width();
        self.argument.lemma_width();
    }
}

/// Selects the current program.
#[derive(Debug, Clone, Copy, PartialEq, Eq)]
pub struct SetProgramNumber {
    /// The program, 0 to 4.
    pub program: u8,
}

impl Opcode for SetProgramNumber {
    open spec fn opcode(&self) -> u8 {
        0x91
    }

    open spec fn encoding(&self) -> Seq<u8> {
        self.program.param_bytes()
    }

    open spec fn text(&self) -> Seq<char> {
        "SetProgramNumber"@ + " program="@ + self.program.param_text()
    }

    fn request_opcode(&self) -> (r: u8) {
        0x91
    }

    fn encode(&self) -> (r: Vec<u8>) {
        let mut buf: Vec<u8> = Vec::new();
        self.program.write_param(&mut buf);
        assert(buf@ =~= self.encoding());
        buf
    }

    fn to_string(&self) -> (r: String) {
        let mut out = String::from_str("SetProgramNumber");
        out.append(" program=");
        self.program.show_param(&mut out);
        assert(out@ =~= self.text());
        out
    }
}

impl Disasm for SetProgramNumber {
    open spec fn size() -> nat {
        1
    }

    open spec fn decoded(bin: Seq<u8>, at: int) -> Self {
        SetProgramNumber {
            program: u8::param_at(bin, at),
        }
    }

    fn disasm(bin: &[u8], pc: &mut usize) -> (r: Result<Self, Error>) {
        let program = u8::disasm_param(bin, pc)?;
        Ok(SetProgramNumber { program })
    }

    proof fn round_trip(self, bin: Seq<u8>, at: int) {
        self.encoded_size();
        assert(self.encoding().subrange(0, 1) =~= self.program.param_bytes());
        lemma_read_part(self.program, bin, at, self.encoding(), 0);
    }

    proof fn encoded_size(self) {
        self.program.lemma_width();
    }
}

/// Deletes a subroutine.
#[derive(Debug, Clone, Copy, PartialEq, Eq)]
pub struct DeleteSubroutine {
    /// The subroutine, 0 to 7.
    pub subroutine: u8,
}

impl Opcode for DeleteSubroutine {
    open spec fn opcode(&self) -> u8 {
        0xc1
    }

    open spec fn encoding(&self) -> Seq<u8> {
        self.subroutine.param_bytes()
    }

    open spec fn text(&self) -> Seq<char> {
        "DeleteSubroutine"@ + " subroutine="@ + self.subroutine.param_text()
    }

    fn request_opcode(&self) -> (r: u8) {
        0xc1
    }

    fn encode(&self) -> (r: Vec<u8>) {
        let mut buf: Vec<u8> = Vec::new();
        self.subroutine.write_param(&mut buf);
        assert(buf@ =~= self.encoding());
        buf
    }

    fn to_string(&self) -> (r: String) {
        let mut out = String::from_str("DeleteSubroutine");
        out.append(" subroutine=");
        self.subroutine.show_param(&mut out);
        assert(out@ =~= self.text());
        out
    }
}

impl Disasm for DeleteSubroutine {
    open spec fn size() -> nat {
        1
    }

    open spec fn decoded(bin: Seq<u8>, at: int) -> Self {
        DeleteSubroutine {
            subroutine: u8::param_at(bin, at),
        }
    }

    fn disasm(bin: &[u8], pc: &mut usize) -> (r: Result<Self, Error>) {
        let subroutine = u8::disasm_param(bin, pc)?;
        Ok(DeleteSubroutine { subroutine })
    }

    proof fn round_trip(self, bin: Seq<u8>, at: int) {
        self.encoded_size();
        assert(self.encoding().subrange(0, 1) =~= self.subroutine.param_bytes());
        lemma_read_part(self.subroutine, bin, at, self.encoding(), 0);
    }

    proof fn encoded_size(self) {
        self.subroutine.lemma_width();
    }
}

} // verus!
