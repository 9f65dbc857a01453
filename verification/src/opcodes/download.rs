//! Opcodes that download programs and firmware.

use vstd::prelude::*;
use vstd::string::StringExecFns;
use crate::codec::decode_frame;
use crate::errors::Error;
use crate::opcodes::{Disasm, Opcode, Response};
use crate::opcodes::params::{DisasmParam, lemma_read_part, WriteParam};

verus! {

/// Announces the download of a task.
#[derive(Debug, Clone, Copy, PartialEq, Eq)]
pub struct StartTaskDownload {
    /// Always 0.
    pub unknown: u8,
    /// The task, 0 to 9.
    pub task: i16,
    /// The length of the task in bytes.
    pub length: i16,
}

impl Opcode for StartTaskDownload {
    open spec fn opcode(&self) -> u8 {
        0x25
    }

    open spec fn encoding(&self) -> Seq<u8> {
        self.unknown.param_bytes() + self.task.param_bytes() + self.length.param_bytes()
    }

    open spec fn text(&self) -> Seq<char> {
        "StartTaskDownload"@ + " unknown="@ + self.unknown.param_text() + " task="@
            + self.task.param_text() + " length="@ + self.length.param_text()
    }

    fn request_opcode(&self) -> (r: u8) {
        0x25
    }

    fn encode(&self) -> (r: Vec<u8>) {
        let mut buf: Vec<u8> = Vec::new();
        self.unknown.write_param(&mut buf);
        self.task.write_param(&mut buf);
        self.length.write_param(&mut buf);
        assert(buf@ =~= self.encoding());
        buf
    }

    fn to_string(&self) -> (r: String) {
        let mut out = String::from_str("StartTaskDownload");
        out.append(" unknown=");
        self.unknown.show_param(&mut out);
        out.append(" task=");
        self.task.show_param(&mut out);
        out.append(" length=");
        self.length.show_param(&mut out);
        assert(out@ =~= self.text());
        out
    }
}

impl Disasm for StartTaskDownload {
    open spec fn size() -> nat {
        5
    }

    open spec fn decoded(bin: Seq<u8>, at: int) -> Self {
        StartTaskDownload {
            unknown: u8::param_at(bin, at),
            task: i16::param_at(bin, at + 1),
            length: i16::param_at(bin, at + 3),
        }
    }

    fn disasm(bin: &[u8], pc: &mut usize) -> (r: Result<Self, Error>) {
        let unknown = u8::disasm_param(bin, pc)?;
        let task = i16::disasm_param(bin, pc)?;
        let length = i16::disasm_param(bin, pc)?;
        Ok(StartTaskDownload { unknown, task, length })
    }

    proof fn round_trip(self, bin: Seq<u8>, at: int) {
        self.encoded_size();
        assert(self.encoding().subrange(0, 1) =~= self.unknown.param_bytes());
        lemma_read_part(self.unknown, bin, at, self.encoding(), 0);
        assert(self.encoding().subrange(1, 3) =~= self.task.param_bytes());
        lemma_read_part(self.task, bin, at, self.encoding(), 1);
        assert(self.encoding().subrange(3, 5) =~= self.length.param_bytes());
        lemma_read_part(self.length, bin, at, self.encoding(), 3);
    }

    proof fn encoded_size(self) {
        self.unknown.lemma_width();
        self.task.lemma_width();
        self.length.lemma_width();
    }
}

/// The reply to [`StartTaskDownload`].
#[derive(Debug, Clone, Copy, PartialEq, Eq)]
pub struct StartTaskDownloadResponse {
    /// 0 on success.
    pub status: u8,
}

impl Response for StartTaskDownloadResponse {
    open spec fn size() -> nat {
        1
    }

    open spec fn from_payload(payload: Seq<u8>) -> Self {
        StartTaskDownloadResponse {
            status: u8::param_at(payload, 0),
        }
    }

    fn deserialise(buf: &[u8]) -> (r: Result<Self, Error>) {
        let (_opcode, payload) = decode_frame(buf, 1)?;
        let mut at: usize = 0;
        let status = u8::disasm_param(payload.as_slice(), &mut at)?;
        Ok(StartTaskDownloadResponse { status })
    }
}

/// Announces the download of a subroutine.
#[derive(Debug, Clone, Copy, PartialEq, Eq)]
pub struct StartSubroutineDownload {
    /// Always 0.
    pub unknown: u8,
    /// The subroutine, 0 to 7.
    pub subroutine: i16,
    /// The length of the subroutine in bytes.
    pub length: i16,
}

impl Opcode for StartSubroutineDownload {
    open spec fn opcode(&self) -> u8 {
        0x35
    }

    open spec fn encoding(&self) -> Seq<u8> {
        self.unknown.param_bytes() + self.subroutine.param_bytes() + self.length.param_bytes()
    }

    open spec fn text(&self) -> Seq<char> {
        "StartSubroutineDownload"@ + " unknown="@ + self.unknown.param_text() + " subroutine="@
            + self.subroutine.param_text() + " length="@ + self.length.param_text()
    }

    fn request_opcode(&self) -> (r: u8) {
        0x35
    }

    fn encode(&self) -> (r: Vec<u8>) {
        let mut buf: Vec<u8> = Vec::new();
        self.unknown.write_param(&mut buf);
        self.subroutine.write_param(&mut buf);
        self.length.write_param(&mut buf);
        assert(buf@ =~= self.encoding());
        buf
    }

    fn to_string(&self) -> (r: String) {
        let mut out = String::from_str("StartSubroutineDownload");
        out.append(" unknown=");
        self.unknown.show_param(&mut out);
        out.append(" subroutine=");
        self.subroutine.show_param(&mut out);
        out.append(" length=");
        self.length.show_param(&mut out);
        assert(out@ =~= self.text());
        out
    }
}

impl Disasm for StartSubroutineDownload {
    open spec fn size() -> nat {
        5
    }

    open spec fn decoded(bin: Seq<u8>, at: int) -> Self {
        StartSubroutineDownload {
            unknown: u8::param_at(bin, at),
            subroutine: i16::param_at(bin, at + 1),
            length: i16::param_at(bin, at + 3),
        }
    }

    fn disasm(bin: &[u8], pc: &mut usize) -> (r: Result<Self, Error>) {
        let unknown = u8::disasm_param(bin, pc)?;
        let subroutine = i16::disasm_param(bin, pc)?;
        let length = i16::disasm_param(bin, pc)?;
        Ok(StartSubroutineDownload { unknown, subroutine, length })
    }

    proof fn round_trip(self, bin: Seq<u8>, at: int) {
        self.encoded_size();
        assert(self.encoding().subrange(0, 1) =~= self.unknown.param_bytes());
        lemma_read_part(self.unknown, bin, at, self.encoding(), 0);
        assert(self.encoding().subrange(1, 3) =~= self.subroutine.param_bytes());
        lemma_read_part(self.subroutine, bin, at, self.encoding(), 1);
        assert(self.encoding().subrange(3, 5) =~= self.length.param_bytes());
        lemma_read_part(self.length, bin, at, self.encoding(), 3);
    }

    proof fn encoded_size(self) {
        self.unknown.lemma_width();
        self.subroutine.lemma_width();
        self.length.lemma_width();
    }
}

/// The reply to [`StartSubroutineDownload`].
#[derive(Debug, Clone, Copy, PartialEq, Eq)]
pub struct StartSubroutineDownloadResponse {
    /// 0 on success.
    pub status: u8,
}

impl Response for StartSubroutineDownloadResponse {
    open spec fn size() -> nat {
        1
    }

    open spec fn from_payload(payload: Seq<u8>) -> Self {
        StartSubroutineDownloadResponse {
            status: u8::param_at(payload, 0),
        }
    }

    fn deserialise(buf: &[u8]) -> (r: Result<Self, Error>) {
        let (_opcode, payload) = decode_frame(buf, 1)?;
        let mut at: usize = 0;
        let status = u8::disasm_param(payload.as_slice(), &mut at)?;
        Ok(StartSubroutineDownloadResponse { status })
    }
}

/// Carries one block of a download.
#[derive(Debug, Clone, PartialEq, Eq)]
pub struct TransferData {
    /// The number of the block, counted from 1; 0 for the last.
    pub index: i16,
    /// The number of data bytes.
    pub length: i16,
    /// The data.
    pub data: Vec<u8>,
    /// The sum of the data bytes, modulo 256.
    pub checksum: u8,
}

impl Opcode for TransferData {
    open spec fn opcode(&self) -> u8 {
        0x45
    }

    open spec fn encoding(&self) -> Seq<u8> {
        self.index.param_bytes() + self.length.param_bytes() + self.data.param_bytes()
            + self.checksum.param_bytes()
    }

    open spec fn text(&self) -> Seq<char> {
        "TransferData"@ + " index="@ + self.index.param_text() + " length="@
            + self.length.param_text() + " data="@ + self.data.param_text() + " checksum="@
            + self.checksum.param_text()
    }

    fn request_opcode(&self) -> (r: u8) {
        0x45
    }

    fn encode(&self) -> (r: Vec<u8>) {
        let mut buf: Vec<u8> = Vec::new();
        self.index.write_param(&mut buf);
        self.length.write_param(&mut buf);
        self.data.write_param(&mut buf);
        self.checksum.write_param(&mut buf);
        assert(buf@ =~= self.encoding());
        buf
    }

    fn to_string(&self) -> (r: String) {
        let mut out = String::from_str("TransferData");
        out.append(" index=");
        self.index.show_param(&mut out);
        out.append(" length=");
        self.length.show_param(&mut out);
        out.append(" data=");
        self.data.show_param(&mut out);
        out.append(" checksum=");
        self.checksum.show_param(&mut out);
        assert(out@ =~= self.text());
        out
    }
}

/// The reply to [`TransferData`].
#[derive(Debug, Clone, Copy, PartialEq, Eq)]
pub struct TransferDataResponse {
    /// 0 on success.
    pub status: u8,
}

impl Response for TransferDataResponse {
    open spec fn size() -> nat {
        1
    }

    open spec fn from_payload(payload: Seq<u8>) -> Self {
        TransferDataResponse {
            status: u8::param_at(payload, 0),
        }
    }

    fn deserialise(buf: &[u8]) -> (r: Result<Self, Error>) {
        let (_opcode, payload) = decode_frame(buf, 1)?;
        let mut at: usize = 0;
        let status = u8::disasm_param(payload.as_slice(), &mut at)?;
        Ok(TransferDataResponse { status })
    }
}

/// Deletes the firmware.
#[derive(Debug, Clone, Copy, PartialEq, Eq)]
pub struct DeleteFirmware {
    /// The key that the brick expects.
    pub key: [u8; 5],
}

impl Opcode for DeleteFirmware {
    open spec fn opcode(&self) -> u8 {
        0x65
    }

    open spec fn encoding(&self) -> Seq<u8> {
        self.key.param_bytes()
    }

    open spec fn text(&self) -> Seq<char> {
        "DeleteFirmware"@ + " key="@ + self.key.param_text()
    }

    fn request_opcode(&self) -> (r: u8) {
        0x65
    }

    fn encode(&self) -> (r: Vec<u8>) {
        let mut buf: Vec<u8> = Vec::new();
        self.key.write_param(&mut buf);
        assert(buf@ =~= self.encoding());
        buf
    }

    fn to_string(&self) -> (r: String) {
        let mut out = String::from_str("DeleteFirmware");
        out.append(" key=");
        self.key.show_param(&mut out);
        assert(out@ =~= self.text());
        out
    }
}

impl Disasm for DeleteFirmware {
    open spec fn size() -> nat {
        5
    }

    open spec fn decoded(bin: Seq<u8>, at: int) -> Self {
        DeleteFirmware {
            key: <[u8; 5]>::param_at(bin, at),
        }
    }

    fn disasm(bin: &[u8], pc: &mut usize) -> (r: Result<Self, Error>) {
        let key = <[u8; 5]>::disasm_param(bin, pc)?;
        Ok(DeleteFirmware { key })
    }

    proof fn round_trip(self, bin: Seq<u8>, at: int) {
        self.encoded_size();
        assert(self.encoding().subrange(0, 5) =~= self.key.param_bytes());
        lemma_read_part(self.key, bin, at, self.encoding(), 0);
    }

    proof fn encoded_size(self) {
        self.key.lemma_width();
    }
}

/// Announces the download of firmware.
#[derive(Debug, Clone, Copy, PartialEq, Eq)]
pub struct StartFirmwareDownload {
    /// Where the firmware starts.
    pub address: i16,
    /// The checksum of the firmware.
    pub checksum: i16,
    /// Always 0.
    pub unknown: u8,
}

impl Opcode for StartFirmwareDownload {
    open spec fn opcode(&self) -> u8 {
        0x75
    }

    open spec fn encoding(&self) -> Seq<u8> {
        self.address.param_bytes() + self.checksum.param_bytes() + self.unknown.param_bytes()
    }

    open spec fn text(&self) -> Seq<char> {
        "StartFirmwareDownload"@ + " address="@ + self.address.param_text() + " checksum="@
            + self.checksum.param_text() + " unknown="@ + self.unknown.param_text()
    }

    fn request_opcode(&self) -> (r: u8) {
        0x75
    }

    fn encode(&self) -> (r: Vec<u8>) {
        let mut buf: Vec<u8> = Vec::new();
        self.address.write_param(&mut buf);
        self.checksum.write_param(&mut buf);
        self.unknown.write_param(&mut buf);
        assert(buf@ =~= self.encoding());
        buf
    }

    fn to_string(&self) -> (r: String) {
        let mut out = String::from_str("StartFirmwareDownload");
        out.append(" address=");
        self.address.show_param(&mut out);
        out.append(" checksum=");
        self.checksum.show_param(&mut out);
        out.append(" unknown=");
        self.unknown.show_param(&mut out);
        assert(out@ =~= self.text());
        out
    }
}

impl Disasm for StartFirmwareDownload {
    open spec fn size() -> nat {
        5
    }

    open spec fn decoded(bin: Seq<u8>, at: int) -> Self {
        StartFirmwareDownload {
            address: i16::param_at(bin, at),
            checksum: i16::param_at(bin, at + 2),
            unknown: u8::param_at(bin, at + 4),
        }
    }

    fn disasm(bin: &[u8], pc: &mut usize) -> (r: Result<Self, Error>) {
        let address = i16::disasm_param(bin, pc)?;
        let checksum = i16::disasm_param(bin, pc)?;
        let unknown = u8::disasm_param(bin, pc)?;
        Ok(StartFirmwareDownload { address, checksum, unknown })
    }

    proof fn round_trip(self, bin: Seq<u8>, at: int) {
        self.encoded_size();
        assert(self.encoding().subrange(0, 2) =~= self.address.param_bytes());
        lemma_read_part(self.address, bin, at, self.encoding(), 0);
        assert(self.encoding().subrange(2, 4) =~= self.checksum.param_bytes());
        lemma_read_part(self.checksum, bin, at, self.encoding(), 2);
        assert(self.encoding().subrange(4, 5) =~= self.unknown.param_bytes());
        lemma_read_part(self.unknown, bin, at, self.encoding(), 4);
    }

    proof fn encoded_size(self) {
        self.address.lemma_width();
        self.checksum.lemma_width();
        self.unknown.lemma_width();
    }
}

/// The reply to [`StartFirmwareDownload`].
#[derive(Debug, Clone, Copy, PartialEq, Eq)]
pub struct StartFirmwareDownloadResponse {}

impl Response for StartFirmwareDownloadResponse {
    open spec fn size() -> nat {
        0
    }

    open spec fn from_payload(payload: Seq<u8>) -> Self {
        StartFirmwareDownloadResponse {}
    }

    fn deserialise(buf: &[u8]) -> (r: Result<Self, Error>) {
        let (_opcode, _payload) = decode_frame(buf, 0)?;
        Ok(StartFirmwareDownloadResponse {})
    }
}

/// Unlocks the firmware after a download.
#[derive(Debug, Clone, Copy, PartialEq, Eq)]
pub struct UnlockFirmware {
    /// The key that the brick expects.
    pub key: [u8; 5],
}

impl Opcode for UnlockFirmware {
    open spec fn opcode(&self) -> u8 {
        0xa5
    }

    open spec fn encoding(&self) -> Seq<u8> {
        self.key.param_bytes()
    }

    open spec fn text(&self) -> Seq<char> {
        "UnlockFirmware"@ + " key="@ + self.key.param_text()
    }

    fn request_opcode(&self) -> (r: u8) {
        0xa5
    }

    fn encode(&self) -> (r: Vec<u8>) {
        let mut buf: Vec<u8> = Vec::new();
        self.key.write_param(&mut buf);
        assert(buf@ =~= self.encoding());
        buf
    }

    fn to_string(&self) -> (r: String) {
        let mut out = String::from_str("UnlockFirmware");
        out.append(" key=");
        self.key.show_param(&mut out);
        assert(out@ =~= self.text());
        out
    }
}

impl Disasm for UnlockFirmware {
    open spec fn size() -> nat {
        5
    }

    open spec fn decoded(bin: Seq<u8>, at: int) -> Self {
        UnlockFirmware {
            key: <[u8; 5]>::param_at(bin, at),
        }
    }

    fn disasm(bin: &[u8], pc: &mut usize) -> (r: Result<Self, Error>) {
        let key = <[u8; 5]>::disasm_param(bin, pc)?;
        Ok(UnlockFirmware { key })
    }

    proof fn round_trip(self, bin: Seq<u8>, at: int) {
        self.encoded_size();
        assert(self.encoding().subrange(0, 5) =~= self.key.param_bytes());
        lemma_read_part(self.key, bin, at, self.encoding(), 0);
    }

    proof fn encoded_size(self) {
        self.key.lemma_width();
    }
}

/// The reply to [`UnlockFirmware`].
#[derive(Debug, Clone, Copy, PartialEq, Eq)]
pub struct UnlockFirmwareResponse {
    /// The greeting of the firmware.
    pub data: [u8; 25],
}

impl Response for UnlockFirmwareResponse {
    open spec fn size() -> nat {
        25
    }

    open spec fn from_payload(payload: Seq<u8>) -> Self {
        UnlockFirmwareResponse {
            data: <[u8; 25]>::param_at(payload, 0),
        }
    }

    fn deserialise(buf: &[u8]) -> (r: Result<Self, Error>) {
        let (_opcode, payload) = decode_frame(buf, 25)?;
        let mut at: usize = 0;
        let data = <[u8; 25]>::disasm_param(payload.as_slice(), &mut at)?;
        Ok(UnlockFirmwareResponse { data })
    }
}

} // verus!
