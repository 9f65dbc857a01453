//! Opcodes for the brick as a whole: presence, versions, clock, display, sound, datalog
//! and messages.

use vstd::prelude::*;
use vstd::string::StringExecFns;
use crate::codec::decode_frame;
use crate::errors::Error;
use crate::opcodes::{Disasm, Opcode, Response};
use crate::opcodes::params::{DisasmParam, lemma_read_part, WriteParam};

verus! {

/// Asks the brick whether it is there.
#[derive(Debug, Clone, Copy, PartialEq, Eq)]
pub struct Alive {}

impl Opcode for Alive {
    open spec fn opcode(&self) -> u8 {
        0x10
    }

    open spec fn encoding(&self) -> Seq<u8> {
        Seq::empty()
    }

    open spec fn text(&self) -> Seq<char> {
        "Alive"@
    }

    fn request_opcode(&self) -> (r: u8) {
        0x10
    }

    fn encode(&self) -> (r: Vec<u8>) {
        Vec::new()
    }

    fn to_string(&self) -> (r: String) {
        String::from_str("Alive")
    }
}

impl Disasm for Alive {
    open spec fn size() -> nat {
        0
    }

    open spec fn decoded(bin: Seq<u8>, at: int) -> Self {
        Alive {}
    }

    fn disasm(_bin: &[u8], _pc: &mut usize) -> (r: Result<Self, Error>) {
        Ok(Alive {})
    }

    proof fn round_trip(self, bin: Seq<u8>, at: int) {
    }

    proof fn encoded_size(self) {
    }
}

/// Reads a value from a source.
#[derive(Debug, Clone, Copy, PartialEq, Eq)]
pub struct GetValue {
    /// Where the value comes from.
    pub source: u8,
    /// The argument of the source.
    pub argument: u8,
}

impl Opcode for GetValue {
    open spec fn opcode(&self) -> u8 {
        0x12
    }

    open spec fn encoding(&self) -> Seq<u8> {
        self.source.param_bytes() + self.argument.param_bytes()
    }

    open spec fn text(&self) -> Seq<char> {
        "GetValue"@ + " source="@ + self.source.param_text() + " argument="@
            + self.argument.param_text()
    }

    fn request_opcode(&self) -> (r: u8) {
        0x12
    }

    fn encode(&self) -> (r: Vec<u8>) {
        let mut buf: Vec<u8> = Vec::new();
        self.source.write_param(&mut buf);
        self.argument.write_param(&mut buf);
        assert(buf@ =~= self.encoding());
        buf
    }

    fn to_string(&self) -> (r: String) {
        let mut out = String::from_str("GetValue");
        out.append(" source=");
        self.source.show_param(&mut out);
        out.append(" argument=");
        self.argument.show_param(&mut out);
        assert(out@ =~= self.text());
        out
    }
}

impl Disasm for GetValue {
    open spec fn size() -> nat {
        2
    }

    open spec fn decoded(bin: Seq<u8>, at: int) -> Self {
        GetValue {
            source: u8::param_at(bin, at),
            argument: u8::param_at(bin, at + 1),
        }
    }

    fn disasm(bin: &[u8], pc: &mut usize) -> (r: Result<Self, Error>) {
        let source = u8::disasm_param(bin, pc)?;
        let argument = u8::disasm_param(bin, pc)?;
        Ok(GetValue { source, argument })
    }

    proof fn round_trip(self, bin: Seq<u8>, at: int) {
        self.encoded_size();
        assert(self.encoding().subrange(0, 1) =~= self.source.param_bytes());
        lemma_read_part(self.source, bin, at, self.encoding(), 0);
        assert(self.encoding().subrange(1, 2) =~= self.argument.param_bytes());
        lemma_read_part(self.argument, bin, at, self.encoding(), 1);
    }

    proof fn encoded_size(self) {
        self.source.lemma_width();
        self.argument.lemma_width();
    }
}

/// The reply to [`GetValue`].
#[derive(Debug, Clone, Copy, PartialEq, Eq)]
pub struct GetValueResponse {
    /// The value read.
    pub value: i16,
}

impl Response for GetValueResponse {
    open spec fn size() -> nat {
        2
    }

    open spec fn from_payload(payload: Seq<u8>) -> Self {
        GetValueResponse {
            value: i16::param_at(payload, 0),
        }
    }

    fn deserialise(buf: &[u8]) -> (r: Result<Self, Error>) {
        let (_opcode, payload) = decode_frame(buf, 2)?;
        let mut at: usize = 0;
        let value = i16::disasm_param(payload.as_slice(), &mut at)?;
        Ok(GetValueResponse { value })
    }
}

/// Asks for the versions of ROM and firmware.
#[derive(Debug, Clone, Copy, PartialEq, Eq)]
pub struct GetVersions {
    /// The key that the brick expects.
    pub key: [u8; 5],
}

impl Opcode for GetVersions {
    open spec fn opcode(&self) -> u8 {
        0x15
    }

    open spec fn encoding(&self) -> Seq<u8> {
        self.key.param_bytes()
    }

    open spec fn text(&self) -> Seq<char> {
        "GetVersions"@ + " key="@ + self.key.param_text()
    }

    fn request_opcode(&self) -> (r: u8) {
        0x15
    }

    fn encode(&self) -> (r: Vec<u8>) {
        let mut buf: Vec<u8> = Vec::new();
        self.key.write_param(&mut buf);
        assert(buf@ =~= self.encoding());
        buf
    }

    fn to_string(&self) -> (r: String) {
        let mut out = String::from_str("GetVersions");
        out.append(" key=");
        self.key.show_param(&mut out);
        assert(out@ =~= self.text());
        out
    }
}

impl Disasm for GetVersions {
    open spec fn size() -> nat {
        5
    }

    open spec fn decoded(bin: Seq<u8>, at: int) -> Self {
        GetVersions {
            key: <[u8; 5]>::param_at(bin, at),
        }
    }

    fn disasm(bin: &[u8], pc: &mut usize) -> (r: Result<Self, Error>) {
        let key = <[u8; 5]>::disasm_param(bin, pc)?;
        Ok(GetVersions { key })
    }

    proof fn round_trip(self, bin: Seq<u8>, at: int) {
        self.encoded_size();
        assert(self.encoding().subrange(0, 5) =~= self.key.param_bytes());
        lemma_read_part(self.key, bin, at, self.encoding(), 0);
    }

    proof fn encoded_size(self) {
        self.key.lemma_width();
    }
}

/// The reply to [`GetVersions`].
#[derive(Debug, Clone, Copy, PartialEq, Eq)]
pub struct GetVersionsResponse {
    /// Major and minor version of the ROM.
    pub rom: [u16; 2],
    /// Major and minor version of the firmware.
    pub firmware: [u16; 2],
}

impl Response for GetVersionsResponse {
    open spec fn size() -> nat {
        8
    }

    open spec fn from_payload(payload: Seq<u8>) -> Self {
        GetVersionsResponse {
            rom: <[u16; 2]>::param_at(payload, 0),
            firmware: <[u16; 2]>::param_at(payload, 4),
        }
    }

    fn deserialise(buf: &[u8]) -> (r: Result<Self, Error>) {
        let (_opcode, payload) = decode_frame(buf, 8)?;
        let mut at: usize = 0;
        let rom = <[u16; 2]>::disasm_param(payload.as_slice(), &mut at)?;
        let firmware = <[u16; 2]>::disasm_param(payload.as_slice(), &mut at)?;
        Ok(GetVersionsResponse { rom, firmware })
    }
}

/// Asks for the memory map.
#[derive(Debug, Clone, Copy, PartialEq, Eq)]
pub struct GetMemoryMap {}

impl Opcode for GetMemoryMap {
    open spec fn opcode(&self) -> u8 {
        0x20
    }

    open spec fn encoding(&self) -> Seq<u8> {
        Seq::empty()
    }

    open spec fn text(&self) -> Seq<char> {
        "GetMemoryMap"@
    }

    fn request_opcode(&self) -> (r: u8) {
        0x20
    }

    fn encode(&self) -> (r: Vec<u8>) {
        Vec::new()
    }

    fn to_string(&self) -> (r: String) {
        String::from_str("GetMemoryMap")
    }
}

impl Disasm for GetMemoryMap {
    open spec fn size() -> nat {
        0
    }

    open spec fn decoded(bin: Seq<u8>, at: int) -> Self {
        GetMemoryMap {}
    }

    fn disasm(_bin: &[u8], _pc: &mut usize) -> (r: Result<Self, Error>) {
        Ok(GetMemoryMap {})
    }

    proof fn round_trip(self, bin: Seq<u8>, at: int) {
    }

    proof fn encoded_size(self) {
    }
}

/// The reply to [`GetMemoryMap`].
#[derive(Debug, Clone, Copy, PartialEq, Eq)]
pub struct GetMemoryMapResponse {
    /// The addresses of the memory map.
    pub map: [u16; 94],
}

impl Response for GetMemoryMapResponse {
    open spec fn size() -> nat {
        188
    }

    open spec fn from_payload(payload: Seq<u8>) -> Self {
        GetMemoryMapResponse {
            map: <[u16; 94]>::param_at(payload, 0),
        }
    }

    fn deserialise(buf: &[u8]) -> (r: Result<Self, Error>) {
        let (_opcode, payload) = decode_frame(buf, 188)?;
        let mut at: usize = 0;
        let map = <[u16; 94]>::disasm_param(payload.as_slice(), &mut at)?;
        Ok(GetMemoryMapResponse { map })
    }
}

/// Sets the clock.
#[derive(Debug, Clone, Copy, PartialEq, Eq)]
pub struct SetTime {
    /// Hours, 0 to 23.
    pub hours: u8,
    /// Minutes, 0 to 59.
    pub minutes: u8,
}

impl Opcode for SetTime {
    open spec fn opcode(&self) -> u8 {
        0x22
    }

    open spec fn encoding(&self) -> Seq<u8> {
        self.hours.param_bytes() + self.minutes.param_bytes()
    }

    open spec fn text(&self) -> Seq<char> {
        "SetTime"@ + " hours="@ + self.hours.param_text() + " minutes="@
            + self.minutes.param_text()
    }

    fn request_opcode(&self) -> (r: u8) {
        0x22
    }

    fn encode(&self) -> (r: Vec<u8>) {
        let mut buf: Vec<u8> = Vec::new();
        self.hours.write_param(&mut buf);
        self.minutes.write_param(&mut buf);
        assert(buf@ =~= self.encoding());
        buf
    }

    fn to_string(&self) -> (r: String) {
        let mut out = String::from_str("SetTime");
        out.append(" hours=");
        self.hours.show_param(&mut out);
        out.append(" minutes=");
        self.minutes.show_param(&mut out);
        assert(out@ =~= self.text());
        out
    }
}

impl Disasm for SetTime {
    open spec fn size() -> nat {
        2
    }

    open spec fn decoded(bin: Seq<u8>, at: int) -> Self {
        SetTime {
            hours: u8::param_at(bin, at),
            minutes: u8::param_at(bin, at + 1),
        }
    }

    fn disasm(bin: &[u8], pc: &mut usize) -> (r: Result<Self, Error>) {
        let hours = u8::disasm_param(bin, pc)?;
        let minutes = u8::disasm_param(bin, pc)?;
        Ok(SetTime { hours, minutes })
    }

    proof fn round_trip(self, bin: Seq<u8>, at: int) {
        self.encoded_size();
        assert(self.encoding().subrange(0, 1) =~= self.hours.param_bytes());
        lemma_read_part(self.hours, bin, at, self.encoding(), 0);
        assert(self.encoding().subrange(1, 2) =~= self.minutes.param_bytes());
        lemma_read_part(self.minutes, bin, at, self.encoding(), 1);
    }

    proof fn encoded_size(self) {
        self.hours.lemma_width();
        self.minutes.lemma_width();
    }
}

/// Plays a tone.
#[derive(Debug, Clone, Copy, PartialEq, Eq)]
pub struct PlayTone {
    /// Frequency in Hz.
    pub frequency: i16,
    /// Duration in 1/100ths of a second.
    pub duration: i8,
}

impl Opcode for PlayTone {
    open spec fn opcode(&self) -> u8 {
        0x23
    }

    open spec fn encoding(&self) -> Seq<u8> {
        self.frequency.param_bytes() + self.duration.param_bytes()
    }

    open spec fn text(&self) -> Seq<char> {
        "PlayTone"@ + " frequency="@ + self.frequency.param_text() + " duration="@
            + self.duration.param_text()
    }

    fn request_opcode(&self) -> (r: u8) {
        0x23
    }

    fn encode(&self) -> (r: Vec<u8>) {
        let mut buf: Vec<u8> = Vec::new();
        self.frequency.write_param(&mut buf);
        self.duration.write_param(&mut buf);
        assert(buf@ =~= self.encoding());
        buf
    }

    fn to_string(&self) -> (r: String) {
        let mut out = String::from_str("PlayTone");
        out.append(" frequency=");
        self.frequency.show_param(&mut out);
        out.append(" duration=");
        self.duration.show_param(&mut out);
        assert(out@ =~= self.text());
        out
    }
}

impl Disasm for PlayTone {
    open spec fn size() -> nat {
        3
    }

    open spec fn decoded(bin: Seq<u8>, at: int) -> Self {
        PlayTone {
            frequency: i16::param_at(bin, at),
            duration: i8::param_at(bin, at + 2),
        }
    }

    fn disasm(bin: &[u8], pc: &mut usize) -> (r: Result<Self, Error>) {
        let frequency = i16::disasm_param(bin, pc)?;
        let duration = i8::disasm_param(bin, pc)?;
        Ok(PlayTone { frequency, duration })
    }

    proof fn round_trip(self, bin: Seq<u8>, at: int) {
        self.encoded_size();
        assert(self.encoding().subrange(0, 2) =~= self.frequency.param_bytes());
        lemma_read_part(self.frequency, bin, at, self.encoding(), 0);
        assert(self.encoding().subrange(2, 3) =~= self.duration.param_bytes());
        lemma_read_part(self.duration, bin, at, self.encoding(), 2);
    }

    proof fn encoded_size(self) {
        self.frequency.lemma_width();
        self.duration.lemma_width();
    }
}

/// Asks for the battery voltage.
#[derive(Debug, Clone, Copy, PartialEq, Eq)]
pub struct GetBatteryPower {}

impl Opcode for GetBatteryPower {
    open spec fn opcode(&self) -> u8 {
        0x30
    }

    open spec fn encoding(&self) -> Seq<u8> {
        Seq::empty()
    }

    open spec fn text(&self) -> Seq<char> {
        "GetBatteryPower"@
    }

    fn request_opcode(&self) -> (r: u8) {
        0x30
    }

    fn encode(&self) -> (r: Vec<u8>) {
        Vec::new()
    }

    fn to_string(&self) -> (r: String) {
        String::from_str("GetBatteryPower")
    }
}

impl Disasm for GetBatteryPower {
    open spec fn size() -> nat {
        0
    }

    open spec fn decoded(bin: Seq<u8>, at: int) -> Self {
        GetBatteryPower {}
    }

    fn disasm(_bin: &[u8], _pc: &mut usize) -> (r: Result<Self, Error>) {
        Ok(GetBatteryPower {})
    }

    proof fn round_trip(self, bin: Seq<u8>, at: int) {
    }

    proof fn encoded_size(self) {
    }
}

/// The reply to [`GetBatteryPower`].
#[derive(Debug, Clone, Copy, PartialEq, Eq)]
pub struct GetBatteryPowerResponse {
    /// The battery voltage in millivolts.
    pub millivolts: u16,
}

impl Response for GetBatteryPowerResponse {
    open spec fn size() -> nat {
        2
    }

    open spec fn from_payload(payload: Seq<u8>) -> Self {
        GetBatteryPowerResponse {
            millivolts: u16::param_at(payload, 0),
        }
    }

    fn deserialise(buf: &[u8]) -> (r: Result<Self, Error>) {
        let (_opcode, payload) = decode_frame(buf, 2)?;
        let mut at: usize = 0;
        let millivolts = u16::disasm_param(payload.as_slice(), &mut at)?;
        Ok(GetBatteryPowerResponse { millivolts })
    }
}

/// Sets the range of the infrared transmitter.
#[derive(Debug, Clone, Copy, PartialEq, Eq)]
pub struct SetTransmitterRange {
    /// 0 for short range, 1 for long range.
    pub range: u8,
}

impl Opcode for SetTransmitterRange {
    open spec fn opcode(&self) -> u8 {
        0x31
    }

    open spec fn encoding(&self) -> Seq<u8> {
        self.range.param_bytes()
    }

    open spec fn text(&self) -> Seq<char> {
        "SetTransmitterRange"@ + " range="@ + self.range.param_text()
    }

    fn request_opcode(&self) -> (r: u8) {
        0x31
    }

    fn encode(&self) -> (r: Vec<u8>) {
        let mut buf: Vec<u8> = Vec::new();
        self.range.write_param(&mut buf);
        assert(buf@ =~= self.encoding());
        buf
    }

    fn to_string(&self) -> (r: String) {
        let mut out = String::from_str("SetTransmitterRange");
        out.append(" range=");
        self.range.show_param(&mut out);
        assert(out@ =~= self.text());
        out
    }
}

impl Disasm for SetTransmitterRange {
    open spec fn size() -> nat {
        1
    }

    open spec fn decoded(bin: Seq<u8>, at: int) -> Self {
        SetTransmitterRange {
            range: u8::param_at(bin, at),
        }
    }

    fn disasm(bin: &[u8], pc: &mut usize) -> (r: Result<Self, Error>) {
        let range = u8::disasm_param(bin, pc)?;
        Ok(SetTransmitterRange { range })
    }

    proof fn round_trip(self, bin: Seq<u8>, at: int) {
        self.encoded_size();
        assert(self.encoding().subrange(0, 1) =~= self.range.param_bytes());
        lemma_read_part(self.range, bin, at, self.encoding(), 0);
    }

    proof fn encoded_size(self) {
        self.range.lemma_width();
    }
}

/// Selects what the display shows.
#[derive(Debug, Clone, Copy, PartialEq, Eq)]
pub struct SetDisplay {
    /// Where the value comes from.
    pub source: u8,
    /// The argument of the source.
    pub argument: u8,
}

impl Opcode for SetDisplay {
    open spec fn opcode(&self) -> u8 {
        0x33
    }

    open spec fn encoding(&self) -> Seq<u8> {
        self.source.param_bytes() + self.argument.param_bytes()
    }

    open spec fn text(&self) -> Seq<char> {
        "SetDisplay"@ + " source="@ + self.source.param_text() + " argument="@
            + self.argument.param_text()
    }

    fn request_opcode(&self) -> (r: u8) {
        0x33
    }

    fn encode(&self) -> (r: Vec<u8>) {
        let mut buf: Vec<u8> = Vec::new();
        self.source.write_param(&mut buf);
        self.argument.write_param(&mut buf);
        assert(buf@ =~= self.encoding());
        buf
    }

    fn to_string(&self) -> (r: String) {
        let mut out = String::from_str("SetDisplay");
        out.append(" source=");
        self.source.show_param(&mut out);
        out.append(" argument=");
        self.argument.show_param(&mut out);
        assert(out@ =~= self.text());
        out
    }
}

impl Disasm for SetDisplay {
    open spec fn size() -> nat {
        2
    }

    open spec fn decoded(bin: Seq<u8>, at: int) -> Self {
        SetDisplay {
            source: u8::param_at(bin, at),
            argument: u8::param_at(bin, at + 1),
        }
    }

    fn disasm(bin: &[u8], pc: &mut usize) -> (r: Result<Self, Error>) {
        let source = u8::disasm_param(bin, pc)?;
        let argument = u8::disasm_param(bin, pc)?;
        Ok(SetDisplay { source, argument })
    }

    proof fn round_trip(self, bin: Seq<u8>, at: int) {
        self.encoded_size();
        assert(self.encoding().subrange(0, 1) =~= self.source.param_bytes());
        lemma_read_part(self.source, bin, at, self.encoding(), 0);
        assert(self.encoding().subrange(1, 2) =~= self.argument.param_bytes());
        lemma_read_part(self.argument, bin, at, self.encoding(), 1);
    }

    proof fn encoded_size(self) {
        self.source.lemma_width();
        self.argument.lemma_width();
    }
}

/// Plays one of the built-in sounds.
#[derive(Debug, Clone, Copy, PartialEq, Eq)]
pub struct PlaySound {
    /// The index of the sound, 0 to 5.
    pub sound: u8,
}

impl Opcode for PlaySound {
    open spec fn opcode(&self) -> u8 {
        0x51
    }

    open spec fn encoding(&self) -> Seq<u8> {
        self.sound.param_bytes()
    }

    open spec fn text(&self) -> Seq<char> {
        "PlaySound"@ + " sound="@ + self.sound.param_text()
    }

    fn request_opcode(&self) -> (r: u8) {
        0x51
    }

    fn encode(&self) -> (r: Vec<u8>) {
        let mut buf: Vec<u8> = Vec::new();
        self.sound.write_param(&mut buf);
        assert(buf@ =~= self.encoding());
        buf
    }

    fn to_string(&self) -> (r: String) {
        let mut out = String::from_str("PlaySound");
        out.append(" sound=");
        self.sound.show_param(&mut out);
        assert(out@ =~= self.text());
        out
    }
}

impl Disasm for PlaySound {
    open spec fn size() -> nat {
        1
    }

    open spec fn decoded(bin: Seq<u8>, at: int) -> Self {
        PlaySound {
            sound: u8::param_at(bin, at),
        }
    }

    fn disasm(bin: &[u8], pc: &mut usize) -> (r: Result<Self, Error>) {
        let sound = u8::disasm_param(bin, pc)?;
        Ok(PlaySound { sound })
    }

    proof fn round_trip(self, bin: Seq<u8>, at: int) {
        self.encoded_size();
        assert(self.encoding().subrange(0, 1) =~= self.sound.param_bytes());
        lemma_read_part(self.sound, bin, at, self.encoding(), 0);
    }

    proof fn encoded_size(self) {
        self.sound.lemma_width();
    }
}

/// Allocates the datalog.
#[derive(Debug, Clone, Copy, PartialEq, Eq)]
pub struct SetDatalogSize {
    /// The number of entries.
    pub size: i16,
}

impl Opcode for SetDatalogSize {
    open spec fn opcode(&self) -> u8 {
        0x52
    }

    open spec fn encoding(&self) -> Seq<u8> {
        self.size.param_bytes()
    }

    open spec fn text(&self) -> Seq<char> {
        "SetDatalogSize"@ + " size="@ + self.size.param_text()
    }

    fn request_opcode(&self) -> (r: u8) {
        0x52
    }

    fn encode(&self) -> (r: Vec<u8>) {
        let mut buf: Vec<u8> = Vec::new();
        self.size.write_param(&mut buf);
        assert(buf@ =~= self.encoding());
        buf
    }

    fn to_string(&self) -> (r: String) {
        let mut out = String::from_str("SetDatalogSize");
        out.append(" size=");
        self.size.show_param(&mut out);
        assert(out@ =~= self.text());
        out
    }
}

impl Disasm for SetDatalogSize {
    open spec fn size() -> nat {
        2
    }

    open spec fn decoded(bin: Seq<u8>, at: int) -> Self {
        SetDatalogSize {
            size: i16::param_at(bin, at),
        }
    }

    fn disasm(bin: &[u8], pc: &mut usize) -> (r: Result<Self, Error>) {
        let size = i16::disasm_param(bin, pc)?;
        Ok(SetDatalogSize { size })
    }

    proof fn round_trip(self, bin: Seq<u8>, at: int) {
        self.encoded_size();
        assert(self.encoding().subrange(0, 2) =~= self.size.param_bytes());
        lemma_read_part(self.size, bin, at, self.encoding(), 0);
    }

    proof fn encoded_size(self) {
        self.size.lemma_width();
    }
}

/// The reply to [`SetDatalogSize`].
#[derive(Debug, Clone, Copy, PartialEq, Eq)]
pub struct SetDatalogSizeResponse {
    /// 0 on success, 1 if memory does not suffice.
    pub status: u8,
}

impl Response for SetDatalogSizeResponse {
    open spec fn size() -> nat {
        1
    }

    open spec fn from_payload(payload: Seq<u8>) -> Self {
        SetDatalogSizeResponse {
            status: u8::param_at(payload, 0),
        }
    }

    fn deserialise(buf: &[u8]) -> (r: Result<Self, Error>) {
        let (_opcode, payload) = decode_frame(buf, 1)?;
        let mut at: usize = 0;
        let status = u8::disasm_param(payload.as_slice(), &mut at)?;
        Ok(SetDatalogSizeResponse { status })
    }
}

/// Turns the brick off.
#[derive(Debug, Clone, Copy, PartialEq, Eq)]
pub struct PowerOff {}

impl Opcode for PowerOff {
    open spec fn opcode(&self) -> u8 {
        0x60
    }

    open spec fn encoding(&self) -> Seq<u8> {
        Seq::empty()
    }

    open spec fn text(&self) -> Seq<char> {
        "PowerOff"@
    }

    fn request_opcode(&self) -> (r: u8) {
        0x60
    }

    fn encode(&self) -> (r: Vec<u8>) {
        Vec::new()
    }

    fn to_string(&self) -> (r: String) {
        String::from_str("PowerOff")
    }
}

impl Disasm for PowerOff {
    open spec fn size() -> nat {
        0
    }

    open spec fn decoded(bin: Seq<u8>, at: int) -> Self {
        PowerOff {}
    }

    fn disasm(_bin: &[u8], _pc: &mut usize) -> (r: Result<Self, Error>) {
        Ok(PowerOff {})
    }

    proof fn round_trip(self, bin: Seq<u8>, at: int) {
    }

    proof fn encoded_size(self) {
    }
}

/// Appends a value to the datalog.
#[derive(Debug, Clone, Copy, PartialEq, Eq)]
pub struct DatalogNext {
    /// Where the value comes from.
    pub source: u8,
    /// The argument of the source.
    pub argument: u8,
}

impl Opcode for DatalogNext {
    open spec fn opcode(&self) -> u8 {
        0x62
    }

    open spec fn encoding(&self) -> Seq<u8> {
        self.source.param_bytes() + self.argument.param_bytes()
    }

    open spec fn text(&self) -> Seq<char> {
        "DatalogNext"@ + " source="@ + self.source.param_text() + " argument="@
            + self.argument.param_text()
    }

    fn request_opcode(&self) -> (r: u8) {
        0x62
    }

    fn encode(&self) -> (r: Vec<u8>) {
        let mut buf: Vec<u8> = Vec::new();
        self.source.write_param(&mut buf);
        self.argument.write_param(&mut buf);
        assert(buf@ =~= self.encoding());
        buf
    }

    fn to_string(&self) -> (r: String) {
        let mut out = String::from_str("DatalogNext");
        out.append(" source=");
        self.source.show_param(&mut out);
        out.append(" argument=");
        self.argument.show_param(&mut out);
        assert(out@ =~= self.text());
        out
    }
}

impl Disasm for DatalogNext {
    open spec fn size() -> nat {
        2
    }

    open spec fn decoded(bin: Seq<u8>, at: int) -> Self {
        DatalogNext {
            source: u8::param_at(bin, at),
            argument: u8::param_at(bin, at + 1),
        }
    }

    fn disasm(bin: &[u8], pc: &mut usize) -> (r: Result<Self, Error>) {
        let source = u8::disasm_param(bin, pc)?;
        let argument = u8::disasm_param(bin, pc)?;
        Ok(DatalogNext { source, argument })
    }

    proof fn round_trip(self, bin: Seq<u8>, at: int) {
        self.encoded_size();
        assert(self.encoding().subrange(0, 1) =~= self.source.param_bytes());
        lemma_read_part(self.source, bin, at, self.encoding(), 0);
        assert(self.encoding().subrange(1, 2) =~= self.argument.param_bytes());
        lemma_read_part(self.argument, bin, at, self.encoding(), 1);
    }

    proof fn encoded_size(self) {
        self.source.lemma_width();
        self.argument.lemma_width();
    }
}

/// Clears the message buffer.
#[derive(Debug, Clone, Copy, PartialEq, Eq)]
pub struct ClearMessage {}

impl Opcode for ClearMessage {
    open spec fn opcode(&self) -> u8 {
        0x90
    }

    open spec fn encoding(&self) -> Seq<u8> {
        Seq::empty()
    }

    open spec fn text(&self) -> Seq<char> {
        "ClearMessage"@
    }

    fn request_opcode(&self) -> (r: u8) {
        0x90
    }

    fn encode(&self) -> (r: Vec<u8>) {
        Vec::new()
    }

    fn to_string(&self) -> (r: String) {
        String::from_str("ClearMessage")
    }
}

impl Disasm for ClearMessage {
    open spec fn size() -> nat {
        0
    }

    open spec fn decoded(bin: Seq<u8>, at: int) -> Self {
        ClearMessage {}
    }

    fn disasm(_bin: &[u8], _pc: &mut usize) -> (r: Result<Self, Error>) {
        Ok(ClearMessage {})
    }

    proof fn round_trip(self, bin: Seq<u8>, at: int) {
    }

    proof fn encoded_size(self) {
    }
}

/// Sets the power-down delay.
#[derive(Debug, Clone, Copy, PartialEq, Eq)]
pub struct SetPowerDownDelay {
    /// Minutes of idling before power-off, 0 for never.
    pub minutes: u8,
}

impl Opcode for SetPowerDownDelay {
    open spec fn opcode(&self) -> u8 {
        0xb1
    }

    open spec fn encoding(&self) -> Seq<u8> {
        self.minutes.param_bytes()
    }

    open spec fn text(&self) -> Seq<char> {
        "SetPowerDownDelay"@ + " minutes="@ + self.minutes.param_text()
    }

    fn request_opcode(&self) -> (r: u8) {
        0xb1
    }

    fn encode(&self) -> (r: Vec<u8>) {
        let mut buf: Vec<u8> = Vec::new();
        self.minutes.write_param(&mut buf);
        assert(buf@ =~= self.encoding());
        buf
    }

    fn to_string(&self) -> (r: String) {
        let mut out = String::from_str("SetPowerDownDelay");
        out.append(" minutes=");
        self.minutes.show_param(&mut out);
        assert(out@ =~= self.text());
        out
    }
}

impl Disasm for SetPowerDownDelay {
    open spec fn size() -> nat {
        1
    }

    open spec fn decoded(bin: Seq<u8>, at: int) -> Self {
        SetPowerDownDelay {
            minutes: u8::param_at(bin, at),
        }
    }

    fn disasm(bin: &[u8], pc: &mut usize) -> (r: Result<Self, Error>) {
        let minutes = u8::disasm_param(bin, pc)?;
        Ok(SetPowerDownDelay { minutes })
    }

    proof fn round_trip(self, bin: Seq<u8>, at: int) {
        self.encoded_size();
        assert(self.encoding().subrange(0, 1) =~= self.minutes.param_bytes());
        lemma_read_part(self.minutes, bin, at, self.encoding(), 0);
    }

    proof fn encoded_size(self) {
        self.minutes.lemma_width();
    }
}

/// Sends a message over infrared.
#[derive(Debug, Clone, Copy, PartialEq, Eq)]
pub struct SendMessage {
    /// Where the value comes from.
    pub source: u8,
    /// The argument of the source.
    pub argument: u8,
}

impl Opcode for SendMessage {
    open spec fn opcode(&self) -> u8 {
        0xb2
    }

    open spec fn encoding(&self) -> Seq<u8> {
        self.source.param_bytes() + self.argument.param_bytes()
    }

    open spec fn text(&self) -> Seq<char> {
        "SendMessage"@ + " source="@ + self.source.param_text() + " argument="@
            + self.argument.param_text()
    }

    fn request_opcode(&self) -> (r: u8) {
        0xb2
    }

    fn encode(&self) -> (r: Vec<u8>) {
        let mut buf: Vec<u8> = Vec::new();
        self.source.write_param(&mut buf);
        self.argument.write_param(&mut buf);
        assert(buf@ =~= self.encoding());
        buf
    }

    fn to_string(&self) -> (r: String) {
        let mut out = String::from_str("SendMessage");
        out.append(" source=");
        self.source.show_param(&mut out);
        out.append(" argument=");
        self.argument.show_param(&mut out);
        assert(out@ =~= self.text());
        out
    }
}

impl Disasm for SendMessage {
    open spec fn size() -> nat {
        2
    }

    open spec fn decoded(bin: Seq<u8>, at: int) -> Self {
        SendMessage {
            source: u8::param_at(bin, at),
            argument: u8::param_at(bin, at + 1),
        }
    }

    fn disasm(bin: &[u8], pc: &mut usize) -> (r: Result<Self, Error>) {
        let source = u8::disasm_param(bin, pc)?;
        let argument = u8::disasm_param(bin, pc)?;
        Ok(SendMessage { source, argument })
    }

    proof fn round_trip(self, bin: Seq<u8>, at: int) {
        self.encoded_size();
        assert(self.encoding().subrange(0, 1) =~= self.source.param_bytes());
        lemma_read_part(self.source, bin, at, self.encoding(), 0);
        assert(self.encoding().subrange(1, 2) =~= self.argument.param_bytes());
        lemma_read_part(self.argument, bin, at, self.encoding(), 1);
    }

    proof fn encoded_size(self) {
        self.source.lemma_width();
        self.argument.lemma_width();
    }
}

/// Sets the message buffer. The brick does not reply.
#[derive(Debug, Clone, Copy, PartialEq, Eq)]
pub struct SetMessage {
    /// The message.
    pub message: u8,
}

impl Opcode for SetMessage {
    open spec fn opcode(&self) -> u8 {
        0xf7
    }

    open spec fn encoding(&self) -> Seq<u8> {
        self.message.param_bytes()
    }

    open spec fn text(&self) -> Seq<char> {
        "SetMessage"@ + " message="@ + self.message.param_text()
    }

    fn request_opcode(&self) -> (r: u8) {
        0xf7
    }

    fn encode(&self) -> (r: Vec<u8>) {
        let mut buf: Vec<u8> = Vec::new();
        self.message.write_param(&mut buf);
        assert(buf@ =~= self.encoding());
        buf
    }

    fn to_string(&self) -> (r: String) {
        let mut out = String::from_str("SetMessage");
        out.append(" message=");
        self.message.show_param(&mut out);
        assert(out@ =~= self.text());
        out
    }
}

impl Disasm for SetMessage {
    open spec fn size() -> nat {
        1
    }

    open spec fn decoded(bin: Seq<u8>, at: int) -> Self {
        SetMessage {
            message: u8::param_at(bin, at),
        }
    }

    fn disasm(bin: &[u8], pc: &mut usize) -> (r: Result<Self, Error>) {
        let message = u8::disasm_param(bin, pc)?;
        Ok(SetMessage { message })
    }

    proof fn round_trip(self, bin: Seq<u8>, at: int) {
        self.encoded_size();
        assert(self.encoding().subrange(0, 1) =~= self.message.param_bytes());
        lemma_read_part(self.message, bin, at, self.encoding(), 0);
    }

    proof fn encoded_size(self) {
        self.message.lemma_width();
    }
}

} // verus!
