//! The catalogue of brick opcodes.
//!
//! Every opcode of the brick is a record of its parameters. A record can be
//! encoded as the parameter bytes of a request, shown as a line of a
//! listing, and, where the opcode may stand in a program, decoded from the
//! program's bytes. An opcode that the brick answers has a second record
//! for the reply, decoded from a frame.

pub mod branches;
pub mod download;
pub mod motors;
pub mod params;
pub mod program;
pub mod sensors;
pub mod system;
pub mod variables;

use vstd::prelude::*;
use vstd::string::StringExecFns;
use crate::codec::{complement, complement_of, decoded_frame};
use crate::errors::Error;
use crate::opcodes::params::{bytes_at, has_bytes, read_byte, stalled};
pub use crate::opcodes::system::{
    Alive, ClearMessage, DatalogNext, GetBatteryPower, GetBatteryPowerResponse, GetMemoryMap,
    GetMemoryMapResponse, GetValue, GetValueResponse, GetVersions, GetVersionsResponse,
    PlaySound, PlayTone, PowerOff, SendMessage, SetDatalogSize, SetDatalogSizeResponse,
    SetDisplay, SetMessage, SetPowerDownDelay, SetTime, SetTransmitterRange,
};
pub use crate::opcodes::motors::{SetMotorDirection, SetMotorOnOff, SetMotorPower};
pub use crate::opcodes::sensors::{ClearSensorValue, ClearTimer, SetSensorMode, SetSensorType};
pub use crate::opcodes::program::{
    CallSubroutine, DeleteAllSubroutines, DeleteAllTasks, DeleteSubroutine, DeleteTask,
    SetLoopCounter, SetProgramNumber, StartTask, StopAllTasks, StopTask, Wait,
};
pub use crate::opcodes::variables::{
    AbsoluteValue, AddToVariable, AndVariable, DivideVariable, MultiplyVariable, OrVariable,
    SetVariable, SignVariable, SubtractFromVariable,
};
pub use crate::opcodes::branches::{
    BranchAlwaysFar, BranchAlwaysNear, DecrementLoopCounterFar, DecrementLoopCounterNear,
    TestAndBranchFar, TestAndBranchNear,
};
pub use crate::opcodes::download::{
    DeleteFirmware, StartFirmwareDownload, StartFirmwareDownloadResponse,
    StartSubroutineDownload, StartSubroutineDownloadResponse, StartTaskDownload,
    StartTaskDownloadResponse, TransferData, TransferDataResponse, UnlockFirmware,
    UnlockFirmwareResponse,
};

verus! {

/// What is said of a buffer that is too short for the bytes written to it.
pub open spec fn short_buffer_message() -> Seq<char> {
    "failed to write whole buffer"@
}

/// Whether the brick leaves a request without a reply: the message that
/// is sent to every brick in range, and what only a program can do.
pub open spec fn unanswered(code: u8) -> bool {
    code == 0xf7 || code == 0x17 || code == 0x27 || code == 0x37 || code == 0x43 || code == 0x72
        || code == 0x82 || code == 0x85 || code == 0x92 || code == 0x95 || code == 0xb2
}

/// The opcode byte under which the brick answers a request: the complement
/// of the request's opcode, if it answers at all.
pub open spec fn reply_to(code: u8) -> Option<u8> {
    if unanswered(code) {
        None
    } else {
        Some(complement(code))
    }
}

/// Whether an opcode byte is that of a branch that is always taken.
pub open spec fn branches_always(code: u8) -> bool {
    code == 0x27 || code == 0x72
}

/// Whether an opcode byte is that of a branch that is taken on a condition.
pub open spec fn branches_on_condition(code: u8) -> bool {
    code == 0x37 || code == 0x92 || code == 0x85 || code == 0x95
}

/// An opcode of the brick with its parameters.
pub trait Opcode {
    /// The opcode byte of the request, without the alternate bit.
    spec fn opcode(&self) -> u8;

    /// The parameter bytes in declared order, without the opcode byte.
    spec fn encoding(&self) -> Seq<u8>;

    /// The opcode as a listing shows it: its name, then each parameter as
    /// a space, its name, an equals sign and its value.
    spec fn text(&self) -> Seq<char>;

    /// The opcode byte of the request, without the alternate bit.
    fn request_opcode(&self) -> (r: u8)
        ensures
            r == self.opcode(),
    ;

    /// The opcode byte of the reply, if the brick replies.
    fn response_opcode(&self) -> (r: Option<u8>)
        ensures
            r == reply_to(self.opcode()),
    {
        let code = self.request_opcode();
        if code == 0xf7 || code == 0x17 || code == 0x27 || code == 0x37 || code == 0x43 || code
            == 0x72 || code == 0x82 || code == 0x85 || code == 0x92 || code == 0x95 || code
            == 0xb2 {
            None
        } else {
            Some(complement_of(code))
        }
    }

    /// Whether the request may be sent with the alternate bit set. Only the
    /// message to every brick in range has no alternate form.
    fn supports_alternate(&self) -> (r: bool)
        ensures
            r == (self.opcode() != 0xf7),
    {
        self.request_opcode() != 0xf7
    }

    /// Whether the opcode is a branch that is always taken.
    fn is_unconditional_branch(&self) -> (r: bool)
        ensures
            r == branches_always(self.opcode()),
    {
        let code = self.request_opcode();
        code == 0x27 || code == 0x72
    }

    /// Whether the opcode is a branch that is taken on a condition.
    fn is_conditional_branch(&self) -> (r: bool)
        ensures
            r == branches_on_condition(self.opcode()),
    {
        let code = self.request_opcode();
        code == 0x37 || code == 0x92 || code == 0x85 || code == 0x95
    }

    /// The parameter bytes in declared order, without the opcode byte.
    fn encode(&self) -> (r: Vec<u8>)
        ensures
            r@ == self.encoding(),
    ;

    /// The opcode as a listing shows it.
    fn to_string(&self) -> (r: String)
        ensures
            r@ == self.text(),
    ;

    /// Writes the parameter bytes to the start of the buffer and returns
    /// their number. A buffer that is too short is left as it was.
    fn serialise(&self, buf: &mut [u8]) -> (r: Result<usize, Error>)
        ensures
            match r {
                Ok(n) => {
                    &&& n == self.encoding().len()
                    &&& n <= old(buf)@.len()
                    &&& final(buf)@ == self.encoding() + old(buf)@.skip(n as int)
                },
                Err(e) => {
                    &&& self.encoding().len() > old(buf)@.len()
                    &&& e matches Error::Io(message)
                    &&& message@ == short_buffer_message()
                    &&& final(buf)@ == old(buf)@
                },
            },
    {
        let bytes = self.encode();
        if bytes.len() > buf.len() {
            return Err(Error::Io(String::from_str("failed to write whole buffer")));
        }
        let mut i: usize = 0;
        while i < bytes.len()
            invariant
                i <= bytes.len(),
                bytes.len() <= buf@.len(),
                buf@.len() == old(buf)@.len(),
                forall|k: int| 0 <= k < i ==> buf@[k] == bytes@[k],
                forall|k: int| i <= k < buf@.len() ==> buf@[k] == old(buf)@[k],
            decreases bytes.len() - i,
        {
            buf[i] = bytes[i];
            i += 1;
        }
        assert(buf@ =~= self.encoding() + old(buf)@.skip(bytes.len() as int));
        Ok(bytes.len())
    }
}

/// An opcode that may stand in a program, and so can be decoded from one.
pub trait Disasm: Opcode + Sized {
    /// The number of parameter bytes.
    spec fn size() -> nat;

    /// The record that the parameter bytes from `at` stand for.
    spec fn decoded(bin: Seq<u8>, at: int) -> Self;

    /// Reads the parameters at the program counter, which stands behind the
    /// opcode byte, and moves the counter past them. If the input ends
    /// first, the counter stops at the end.
    fn disasm(bin: &[u8], pc: &mut usize) -> (r: Result<Self, Error>)
        ensures
            match r {
                Ok(op) => {
                    &&& has_bytes(bin@, *old(pc) as int, Self::size())
                    &&& op == Self::decoded(bin@, *old(pc) as int)
                    &&& *final(pc) == *old(pc) + Self::size()
                },
                Err(e) => {
                    &&& !has_bytes(bin@, *old(pc) as int, Self::size())
                    &&& e == Error::InsufficientData
                    &&& *final(pc) == stalled(bin@, *old(pc) as int)
                },
            },
    ;

    /// Decoding undoes encoding: where the bytes of a program hold the
    /// encoding of a record, decoding them gives that record.
    proof fn round_trip(self, bin: Seq<u8>, at: int)
        requires
            bytes_at(bin, at, Self::size()) == self.encoding(),
        ensures
            Self::decoded(bin, at) == self,
    ;

    /// A record is encoded in as many bytes as it is decoded from.
    proof fn encoded_size(self)
        ensures
            self.encoding().len() == Self::size(),
    ;
}

/// The reply of the brick to a request.
pub trait Response: Sized {
    /// The number of parameter bytes.
    spec fn size() -> nat;

    /// The record that the parameter bytes of a frame stand for.
    spec fn from_payload(payload: Seq<u8>) -> Self;

    /// Decodes a reply frame: the preamble is skipped, the opcode byte is
    /// taken as it comes, the parameters are read pair by pair and the
    /// checksum is compared.
    fn deserialise(buf: &[u8]) -> (r: Result<Self, Error>)
        ensures
            r == match decoded_frame(buf@, Self::size()) {
                Ok((opcode, payload)) => Ok::<Self, Error>(Self::from_payload(payload)),
                Err(e) => Err::<Self, Error>(e),
            },
    ;
}

/// What a reply frame decodes to: the record that its parameter bytes stand
/// for, or the failure of the frame.
pub open spec fn deserialised<R: Response>(buf: Seq<u8>) -> Result<R, Error> {
    match decoded_frame(buf, R::size()) {
        Ok((opcode, payload)) => Ok(R::from_payload(payload)),
        Err(e) => Err(e),
    }
}

/// Any opcode of the catalogue.
#[derive(Debug, Clone, PartialEq, Eq)]
pub enum Opcodes {
    Alive(Alive),
    GetValue(GetValue),
    GetVersions(GetVersions),
    GetMemoryMap(GetMemoryMap),
    SetTime(SetTime),
    PlayTone(PlayTone),
    GetBatteryPower(GetBatteryPower),
    SetTransmitterRange(SetTransmitterRange),
    SetDisplay(SetDisplay),
    PlaySound(PlaySound),
    SetDatalogSize(SetDatalogSize),
    PowerOff(PowerOff),
    DatalogNext(DatalogNext),
    ClearMessage(ClearMessage),
    SetPowerDownDelay(SetPowerDownDelay),
    SendMessage(SendMessage),
    SetMessage(SetMessage),
    SetMotorPower(SetMotorPower),
    SetMotorOnOff(SetMotorOnOff),
    SetMotorDirection(SetMotorDirection),
    SetSensorType(SetSensorType),
    SetSensorMode(SetSensorMode),
    ClearTimer(ClearTimer),
    ClearSensorValue(ClearSensorValue),
    CallSubroutine(CallSubroutine),
    DeleteAllTasks(DeleteAllTasks),
    Wait(Wait),
    StopAllTasks(StopAllTasks),
    DeleteTask(DeleteTask),
    DeleteAllSubroutines(DeleteAllSubroutines),
    StartTask(StartTask),
    StopTask(StopTask),
    SetLoopCounter(SetLoopCounter),
    SetProgramNumber(SetProgramNumber),
    DeleteSubroutine(DeleteSubroutine),
    SetVariable(SetVariable),
    AddToVariable(AddToVariable),
    SubtractFromVariable(SubtractFromVariable),
    DivideVariable(DivideVariable),
    MultiplyVariable(MultiplyVariable),
    SignVariable(SignVariable),
    AbsoluteValue(AbsoluteValue),
    AndVariable(AndVariable),
    OrVariable(OrVariable),
    BranchAlwaysNear(BranchAlwaysNear),
    BranchAlwaysFar(BranchAlwaysFar),
    DecrementLoopCounterNear(DecrementLoopCounterNear),
    DecrementLoopCounterFar(DecrementLoopCounterFar),
    TestAndBranchNear(TestAndBranchNear),
    TestAndBranchFar(TestAndBranchFar),
    StartTaskDownload(StartTaskDownload),
    StartSubroutineDownload(StartSubroutineDownload),
    TransferData(TransferData),
    DeleteFirmware(DeleteFirmware),
    StartFirmwareDownload(StartFirmwareDownload),
    UnlockFirmware(UnlockFirmware),
}

impl Opcode for Opcodes {
    open spec fn opcode(&self) -> u8 {
        match self {
            Self::Alive(code) => code.opcode(),
            Self::GetValue(code) => code.opcode(),
            Self::GetVersions(code) => code.opcode(),
            Self::GetMemoryMap(code) => code.opcode(),
            Self::SetTime(code) => code.opcode(),
            Self::PlayTone(code) => code.opcode(),
            Self::GetBatteryPower(code) => code.opcode(),
            Self::SetTransmitterRange(code) => code.opcode(),
            Self::SetDisplay(code) => code.opcode(),
            Self::PlaySound(code) => code.opcode(),
            Self::SetDatalogSize(code) => code.opcode(),
            Self::PowerOff(code) => code.opcode(),
            Self::DatalogNext(code) => code.opcode(),
            Self::ClearMessage(code) => code.opcode(),
            Self::SetPowerDownDelay(code) => code.opcode(),
            Self::SendMessage(code) => code.opcode(),
            Self::SetMessage(code) => code.opcode(),
            Self::SetMotorPower(code) => code.opcode(),
            Self::SetMotorOnOff(code) => code.opcode(),
            Self::SetMotorDirection(code) => code.opcode(),
            Self::SetSensorType(code) => code.opcode(),
            Self::SetSensorMode(code) => code.opcode(),
            Self::ClearTimer(code) => code.opcode(),
            Self::ClearSensorValue(code) => code.opcode(),
            Self::CallSubroutine(code) => code.opcode(),
            Self::DeleteAllTasks(code) => code.opcode(),
            Self::Wait(code) => code.opcode(),
            Self::StopAllTasks(code) => code.opcode(),
            Self::DeleteTask(code) => code.opcode(),
            Self::DeleteAllSubroutines(code) => code.opcode(),
            Self::StartTask(code) => code.opcode(),
            Self::StopTask(code) => code.opcode(),
            Self::SetLoopCounter(code) => code.opcode(),
            Self::SetProgramNumber(code) => code.opcode(),
            Self::DeleteSubroutine(code) => code.opcode(),
            Self::SetVariable(code) => code.opcode(),
            Self::AddToVariable(code) => code.opcode(),
            Self::SubtractFromVariable(code) => code.opcode(),
            Self::DivideVariable(code) => code.opcode(),
            Self::MultiplyVariable(code) => code.opcode(),
            Self::SignVariable(code) => code.opcode(),
            Self::AbsoluteValue(code) => code.opcode(),
            Self::AndVariable(code) => code.opcode(),
            Self::OrVariable(code) => code.opcode(),
            Self::BranchAlwaysNear(code) => code.opcode(),
            Self::BranchAlwaysFar(code) => code.opcode(),
            Self::DecrementLoopCounterNear(code) => code.opcode(),
            Self::DecrementLoopCounterFar(code) => code.opcode(),
            Self::TestAndBranchNear(code) => code.opcode(),
            Self::TestAndBranchFar(code) => code.opcode(),
            Self::StartTaskDownload(code) => code.opcode(),
            Self::StartSubroutineDownload(code) => code.opcode(),
            Self::TransferData(code) => code.opcode(),
            Self::DeleteFirmware(code) => code.opcode(),
            Self::StartFirmwareDownload(code) => code.opcode(),
            Self::UnlockFirmware(code) => code.opcode(),
        }
    }

    open spec fn encoding(&self) -> Seq<u8> {
        match self {
            Self::Alive(code) => code.encoding(),
            Self::GetValue(code) => code.encoding(),
            Self::GetVersions(code) => code.encoding(),
            Self::GetMemoryMap(code) => code.encoding(),
            Self::SetTime(code) => code.encoding(),
            Self::PlayTone(code) => code.encoding(),
            Self::GetBatteryPower(code) => code.encoding(),
            Self::SetTransmitterRange(code) => code.encoding(),
            Self::SetDisplay(code) => code.encoding(),
            Self::PlaySound(code) => code.encoding(),
            Self::SetDatalogSize(code) => code.encoding(),
            Self::PowerOff(code) => code.encoding(),
            Self::DatalogNext(code) => code.encoding(),
            Self::ClearMessage(code) => code.encoding(),
            Self::SetPowerDownDelay(code) => code.encoding(),
            Self::SendMessage(code) => code.encoding(),
            Self::SetMessage(code) => code.encoding(),
            Self::SetMotorPower(code) => code.encoding(),
            Self::SetMotorOnOff(code) => code.encoding(),
            Self::SetMotorDirection(code) => code.encoding(),
            Self::SetSensorType(code) => code.encoding(),
            Self::SetSensorMode(code) => code.encoding(),
            Self::ClearTimer(code) => code.encoding(),
            Self::ClearSensorValue(code) => code.encoding(),
            Self::CallSubroutine(code) => code.encoding(),
            Self::DeleteAllTasks(code) => code.encoding(),
            Self::Wait(code) => code.encoding(),
            Self::StopAllTasks(code) => code.encoding(),
            Self::DeleteTask(code) => code.encoding(),
            Self::DeleteAllSubroutines(code) => code.encoding(),
            Self::StartTask(code) => code.encoding(),
            Self::StopTask(code) => code.encoding(),
            Self::SetLoopCounter(code) => code.encoding(),
            Self::SetProgramNumber(code) => code.encoding(),
            Self::DeleteSubroutine(code) => code.encoding(),
            Self::SetVariable(code) => code.encoding(),
            Self::AddToVariable(code) => code.encoding(),
            Self::SubtractFromVariable(code) => code.encoding(),
            Self::DivideVariable(code) => code.encoding(),
            Self::MultiplyVariable(code) => code.encoding(),
            Self::SignVariable(code) => code.encoding(),
            Self::AbsoluteValue(code) => code.encoding(),
            Self::AndVariable(code) => code.encoding(),
            Self::OrVariable(code) => code.encoding(),
            Self::BranchAlwaysNear(code) => code.encoding(),
            Self::BranchAlwaysFar(code) => code.encoding(),
            Self::DecrementLoopCounterNear(code) => code.encoding(),
            Self::DecrementLoopCounterFar(code) => code.encoding(),
            Self::TestAndBranchNear(code) => code.encoding(),
            Self::TestAndBranchFar(code) => code.encoding(),
            Self::StartTaskDownload(code) => code.encoding(),
            Self::StartSubroutineDownload(code) => code.encoding(),
            Self::TransferData(code) => code.encoding(),
            Self::DeleteFirmware(code) => code.encoding(),
            Self::StartFirmwareDownload(code) => code.encoding(),
            Self::UnlockFirmware(code) => code.encoding(),
        }
    }

    open spec fn text(&self) -> Seq<char> {
        match self {
            Self::Alive(code) => code.text(),
            Self::GetValue(code) => code.text(),
            Self::GetVersions(code) => code.text(),
            Self::GetMemoryMap(code) => code.text(),
            Self::SetTime(code) => code.text(),
            Self::PlayTone(code) => code.text(),
            Self::GetBatteryPower(code) => code.text(),
            Self::SetTransmitterRange(code) => code.text(),
            Self::SetDisplay(code) => code.text(),
            Self::PlaySound(code) => code.text(),
            Self::SetDatalogSize(code) => code.text(),
            Self::PowerOff(code) => code.text(),
            Self::DatalogNext(code) => code.text(),
            Self::ClearMessage(code) => code.text(),
            Self::SetPowerDownDelay(code) => code.text(),
            Self::SendMessage(code) => code.text(),
            Self::SetMessage(code) => code.text(),
            Self::SetMotorPower(code) => code.text(),
            Self::SetMotorOnOff(code) => code.text(),
            Self::SetMotorDirection(code) => code.text(),
            Self::SetSensorType(code) => code.text(),
            Self::SetSensorMode(code) => code.text(),
            Self::ClearTimer(code) => code.text(),
            Self::ClearSensorValue(code) => code.text(),
            Self::CallSubroutine(code) => code.text(),
            Self::DeleteAllTasks(code) => code.text(),
            Self::Wait(code) => code.text(),
            Self::StopAllTasks(code) => code.text(),
            Self::DeleteTask(code) => code.text(),
            Self::DeleteAllSubroutines(code) => code.text(),
            Self::StartTask(code) => code.text(),
            Self::StopTask(code) => code.text(),
            Self::SetLoopCounter(code) => code.text(),
            Self::SetProgramNumber(code) => code.text(),
            Self::DeleteSubroutine(code) => code.text(),
            Self::SetVariable(code) => code.text(),
            Self::AddToVariable(code) => code.text(),
            Self::SubtractFromVariable(code) => code.text(),
            Self::DivideVariable(code) => code.text(),
            Self::MultiplyVariable(code) => code.text(),
            Self::SignVariable(code) => code.text(),
            Self::AbsoluteValue(code) => code.text(),
            Self::AndVariable(code) => code.text(),
            Self::OrVariable(code) => code.text(),
            Self::BranchAlwaysNear(code) => code.text(),
            Self::BranchAlwaysFar(code) => code.text(),
            Self::DecrementLoopCounterNear(code) => code.text(),
            Self::DecrementLoopCounterFar(code) => code.text(),
            Self::TestAndBranchNear(code) => code.text(),
            Self::TestAndBranchFar(code) => code.text(),
            Self::StartTaskDownload(code) => code.text(),
            Self::StartSubroutineDownload(code) => code.text(),
            Self::TransferData(code) => code.text(),
            Self::DeleteFirmware(code) => code.text(),
            Self::StartFirmwareDownload(code) => code.text(),
            Self::UnlockFirmware(code) => code.text(),
        }
    }

    fn request_opcode(&self) -> (r: u8) {
        match self {
            Self::Alive(code) => code.request_opcode(),
            Self::GetValue(code) => code.request_opcode(),
            Self::GetVersions(code) => code.request_opcode(),
            Self::GetMemoryMap(code) => code.request_opcode(),
            Self::SetTime(code) => code.request_opcode(),
            Self::PlayTone(code) => code.request_opcode(),
            Self::GetBatteryPower(code) => code.request_opcode(),
            Self::SetTransmitterRange(code) => code.request_opcode(),
            Self::SetDisplay(code) => code.request_opcode(),
            Self::PlaySound(code) => code.request_opcode(),
            Self::SetDatalogSize(code) => code.request_opcode(),
            Self::PowerOff(code) => code.request_opcode(),
            Self::DatalogNext(code) => code.request_opcode(),
            Self::ClearMessage(code) => code.request_opcode(),
            Self::SetPowerDownDelay(code) => code.request_opcode(),
            Self::SendMessage(code) => code.request_opcode(),
            Self::SetMessage(code) => code.request_opcode(),
            Self::SetMotorPower(code) => code.request_opcode(),
            Self::SetMotorOnOff(code) => code.request_opcode(),
            Self::SetMotorDirection(code) => code.request_opcode(),
            Self::SetSensorType(code) => code.request_opcode(),
            Self::SetSensorMode(code) => code.request_opcode(),
            Self::ClearTimer(code) => code.request_opcode(),
            Self::ClearSensorValue(code) => code.request_opcode(),
            Self::CallSubroutine(code) => code.request_opcode(),
            Self::DeleteAllTasks(code) => code.request_opcode(),
            Self::Wait(code) => code.request_opcode(),
            Self::StopAllTasks(code) => code.request_opcode(),
            Self::DeleteTask(code) => code.request_opcode(),
            Self::DeleteAllSubroutines(code) => code.request_opcode(),
            Self::StartTask(code) => code.request_opcode(),
            Self::StopTask(code) => code.request_opcode(),
            Self::SetLoopCounter(code) => code.request_opcode(),
            Self::SetProgramNumber(code) => code.request_opcode(),
            Self::DeleteSubroutine(code) => code.request_opcode(),
            Self::SetVariable(code) => code.request_opcode(),
            Self::AddToVariable(code) => code.request_opcode(),
            Self::SubtractFromVariable(code) => code.request_opcode(),
            Self::DivideVariable(code) => code.request_opcode(),
            Self::MultiplyVariable(code) => code.request_opcode(),
            Self::SignVariable(code) => code.request_opcode(),
            Self::AbsoluteValue(code) => code.request_opcode(),
            Self::AndVariable(code) => code.request_opcode(),
            Self::OrVariable(code) => code.request_opcode(),
            Self::BranchAlwaysNear(code) => code.request_opcode(),
            Self::BranchAlwaysFar(code) => code.request_opcode(),
            Self::DecrementLoopCounterNear(code) => code.request_opcode(),
            Self::DecrementLoopCounterFar(code) => code.request_opcode(),
            Self::TestAndBranchNear(code) => code.request_opcode(),
            Self::TestAndBranchFar(code) => code.request_opcode(),
            Self::StartTaskDownload(code) => code.request_opcode(),
            Self::StartSubroutineDownload(code) => code.request_opcode(),
            Self::TransferData(code) => code.request_opcode(),
            Self::DeleteFirmware(code) => code.request_opcode(),
            Self::StartFirmwareDownload(code) => code.request_opcode(),
            Self::UnlockFirmware(code) => code.request_opcode(),
        }
    }

    fn encode(&self) -> (r: Vec<u8>) {
        match self {
            Self::Alive(code) => code.encode(),
            Self::GetValue(code) => code.encode(),
            Self::GetVersions(code) => code.encode(),
            Self::GetMemoryMap(code) => code.encode(),
            Self::SetTime(code) => code.encode(),
            Self::PlayTone(code) => code.encode(),
            Self::GetBatteryPower(code) => code.encode(),
            Self::SetTransmitterRange(code) => code.encode(),
            Self::SetDisplay(code) => code.encode(),
            Self::PlaySound(code) => code.encode(),
            Self::SetDatalogSize(code) => code.encode(),
            Self::PowerOff(code) => code.encode(),
            Self::DatalogNext(code) => code.encode(),
            Self::ClearMessage(code) => code.encode(),
            Self::SetPowerDownDelay(code) => code.encode(),
            Self::SendMessage(code) => code.encode(),
            Self::SetMessage(code) => code.encode(),
            Self::SetMotorPower(code) => code.encode(),
            Self::SetMotorOnOff(code) => code.encode(),
            Self::SetMotorDirection(code) => code.encode(),
            Self::SetSensorType(code) => code.encode(),
            Self::SetSensorMode(code) => code.encode(),
            Self::ClearTimer(code) => code.encode(),
            Self::ClearSensorValue(code) => code.encode(),
            Self::CallSubroutine(code) => code.encode(),
            Self::DeleteAllTasks(code) => code.encode(),
            Self::Wait(code) => code.encode(),
            Self::StopAllTasks(code) => code.encode(),
            Self::DeleteTask(code) => code.encode(),
            Self::DeleteAllSubroutines(code) => code.encode(),
            Self::StartTask(code) => code.encode(),
            Self::StopTask(code) => code.encode(),
            Self::SetLoopCounter(code) => code.encode(),
            Self::SetProgramNumber(code) => code.encode(),
            Self::DeleteSubroutine(code) => code.encode(),
            Self::SetVariable(code) => code.encode(),
            Self::AddToVariable(code) => code.encode(),
            Self::SubtractFromVariable(code) => code.encode(),
            Self::DivideVariable(code) => code.encode(),
            Self::MultiplyVariable(code) => code.encode(),
            Self::SignVariable(code) => code.encode(),
            Self::AbsoluteValue(code) => code.encode(),
            Self::AndVariable(code) => code.encode(),
            Self::OrVariable(code) => code.encode(),
            Self::BranchAlwaysNear(code) => code.encode(),
            Self::BranchAlwaysFar(code) => code.encode(),
            Self::DecrementLoopCounterNear(code) => code.encode(),
            Self::DecrementLoopCounterFar(code) => code.encode(),
            Self::TestAndBranchNear(code) => code.encode(),
            Self::TestAndBranchFar(code) => code.encode(),
            Self::StartTaskDownload(code) => code.encode(),
            Self::StartSubroutineDownload(code) => code.encode(),
            Self::TransferData(code) => code.encode(),
            Self::DeleteFirmware(code) => code.encode(),
            Self::StartFirmwareDownload(code) => code.encode(),
            Self::UnlockFirmware(code) => code.encode(),
        }
    }

    fn to_string(&self) -> (r: String) {
        match self {
            Self::Alive(code) => code.to_string(),
            Self::GetValue(code) => code.to_string(),
            Self::GetVersions(code) => code.to_string(),
            Self::GetMemoryMap(code) => code.to_string(),
            Self::SetTime(code) => code.to_string(),
            Self::PlayTone(code) => code.to_string(),
            Self::GetBatteryPower(code) => code.to_string(),
            Self::SetTransmitterRange(code) => code.to_string(),
            Self::SetDisplay(code) => code.to_string(),
            Self::PlaySound(code) => code.to_string(),
            Self::SetDatalogSize(code) => code.to_string(),
            Self::PowerOff(code) => code.to_string(),
            Self::DatalogNext(code) => code.to_string(),
            Self::ClearMessage(code) => code.to_string(),
            Self::SetPowerDownDelay(code) => code.to_string(),
            Self::SendMessage(code) => code.to_string(),
            Self::SetMessage(code) => code.to_string(),
            Self::SetMotorPower(code) => code.to_string(),
            Self::SetMotorOnOff(code) => code.to_string(),
            Self::SetMotorDirection(code) => code.to_string(),
            Self::SetSensorType(code) => code.to_string(),
            Self::SetSensorMode(code) => code.to_string(),
            Self::ClearTimer(code) => code.to_string(),
            Self::ClearSensorValue(code) => code.to_string(),
            Self::CallSubroutine(code) => code.to_string(),
            Self::DeleteAllTasks(code) => code.to_string(),
            Self::Wait(code) => code.to_string(),
            Self::StopAllTasks(code) => code.to_string(),
            Self::DeleteTask(code) => code.to_string(),
            Self::DeleteAllSubroutines(code) => code.to_string(),
            Self::StartTask(code) => code.to_string(),
            Self::StopTask(code) => code.to_string(),
            Self::SetLoopCounter(code) => code.to_string(),
            Self::SetProgramNumber(code) => code.to_string(),
            Self::DeleteSubroutine(code) => code.to_string(),
            Self::SetVariable(code) => code.to_string(),
            Self::AddToVariable(code) => code.to_string(),
            Self::SubtractFromVariable(code) => code.to_string(),
            Self::DivideVariable(code) => code.to_string(),
            Self::MultiplyVariable(code) => code.to_string(),
            Self::SignVariable(code) => code.to_string(),
            Self::AbsoluteValue(code) => code.to_string(),
            Self::AndVariable(code) => code.to_string(),
            Self::OrVariable(code) => code.to_string(),
            Self::BranchAlwaysNear(code) => code.to_string(),
            Self::BranchAlwaysFar(code) => code.to_string(),
            Self::DecrementLoopCounterNear(code) => code.to_string(),
            Self::DecrementLoopCounterFar(code) => code.to_string(),
            Self::TestAndBranchNear(code) => code.to_string(),
            Self::TestAndBranchFar(code) => code.to_string(),
            Self::StartTaskDownload(code) => code.to_string(),
            Self::StartSubroutineDownload(code) => code.to_string(),
            Self::TransferData(code) => code.to_string(),
            Self::DeleteFirmware(code) => code.to_string(),
            Self::StartFirmwareDownload(code) => code.to_string(),
            Self::UnlockFirmware(code) => code.to_string(),
        }
    }
}

impl Opcodes {
    /// Whether the opcode can be decoded from a program. The one that
    /// carries data of variable length cannot.
    pub open spec fn in_program(&self) -> bool {
        !(self is TransferData)
    }

    /// The offset byte of a branch.
    pub open spec fn target(&self) -> Option<u8> {
        match self {
            Self::BranchAlwaysNear(code) => Some(code.offset),
            Self::BranchAlwaysFar(code) => Some(code.offset),
            Self::DecrementLoopCounterNear(code) => Some(code.offset),
            Self::DecrementLoopCounterFar(code) => Some(code.offset),
            Self::TestAndBranchNear(code) => Some(code.offset),
            Self::TestAndBranchFar(code) => Some(code.offset),
            _ => None,
        }
    }

    /// The offset byte, if the opcode is a branch.
    pub fn branch_target(&self) -> (r: Option<u8>)
        ensures
            r == self.target(),
            r is Some <==> branches_always(self.opcode()) || branches_on_condition(self.opcode()),
    {
        match self {
            Self::BranchAlwaysNear(code) => Some(code.offset),
            Self::BranchAlwaysFar(code) => Some(code.offset),
            Self::DecrementLoopCounterNear(code) => Some(code.offset),
            Self::DecrementLoopCounterFar(code) => Some(code.offset),
            Self::TestAndBranchNear(code) => Some(code.offset),
            Self::TestAndBranchFar(code) => Some(code.offset),
            _ => None,
        }
    }
}

/// The record of type `O` that the parameter bytes from `at` stand for, if
/// the input holds that many.
pub open spec fn decoded_as<O: Disasm>(bin: Seq<u8>, at: int) -> Result<O, Error> {
    if has_bytes(bin, at, O::size()) {
        Ok(O::decoded(bin, at))
    } else {
        Err(Error::InsufficientData)
    }
}

/// The instruction that starts at `pc`: the byte there selects the opcode,
/// the bytes behind it are its parameters. There is none if the input ends
/// before the instruction does, or if the byte is no opcode that can stand
/// in a program.
pub open spec fn parsed(bin: Seq<u8>, pc: int) -> Result<Opcodes, Error> {
    if !(0 <= pc < bin.len()) {
        Err(Error::InsufficientData)
    } else if bin[pc] == 0x10 {
        match decoded_as::<Alive>(bin, pc + 1) {
            Ok(code) => Ok(Opcodes::Alive(code)),
            Err(e) => Err(e),
        }
    } else if bin[pc] == 0x12 {
        match decoded_as::<GetValue>(bin, pc + 1) {
            Ok(code) => Ok(Opcodes::GetValue(code)),
            Err(e) => Err(e),
        }
    } else if bin[pc] == 0x15 {
        match decoded_as::<GetVersions>(bin, pc + 1) {
            Ok(code) => Ok(Opcodes::GetVersions(code)),
            Err(e) => Err(e),
        }
    } else if bin[pc] == 0x20 {
        match decoded_as::<GetMemoryMap>(bin, pc + 1) {
            Ok(code) => Ok(Opcodes::GetMemoryMap(code)),
            Err(e) => Err(e),
        }
    } else if bin[pc] == 0x22 {
        match decoded_as::<SetTime>(bin, pc + 1) {
            Ok(code) => Ok(Opcodes::SetTime(code)),
            Err(e) => Err(e),
        }
    } else if bin[pc] == 0x23 {
        match decoded_as::<PlayTone>(bin, pc + 1) {
            Ok(code) => Ok(Opcodes::PlayTone(code)),
            Err(e) => Err(e),
        }
    } else if bin[pc] == 0x30 {
        match decoded_as::<GetBatteryPower>(bin, pc + 1) {
            Ok(code) => Ok(Opcodes::GetBatteryPower(code)),
            Err(e) => Err(e),
        }
    } else if bin[pc] == 0x31 {
        match decoded_as::<SetTransmitterRange>(bin, pc + 1) {
            Ok(code) => Ok(Opcodes::SetTransmitterRange(code)),
            Err(e) => Err(e),
        }
    } else if bin[pc] == 0x33 {
        match decoded_as::<SetDisplay>(bin, pc + 1) {
            Ok(code) => Ok(Opcodes::SetDisplay(code)),
            Err(e) => Err(e),
        }
    } else if bin[pc] == 0x51 {
        match decoded_as::<PlaySound>(bin, pc + 1) {
            Ok(code) => Ok(Opcodes::PlaySound(code)),
            Err(e) => Err(e),
        }
    } else if bin[pc] == 0x52 {
        match decoded_as::<SetDatalogSize>(bin, pc + 1) {
            Ok(code) => Ok(Opcodes::SetDatalogSize(code)),
            Err(e) => Err(e),
        }
    } else if bin[pc] == 0x60 {
        match decoded_as::<PowerOff>(bin, pc + 1) {
            Ok(code) => Ok(Opcodes::PowerOff(code)),
            Err(e) => Err(e),
        }
    } else if bin[pc] == 0x62 {
        match decoded_as::<DatalogNext>(bin, pc + 1) {
            Ok(code) => Ok(Opcodes::DatalogNext(code)),
            Err(e) => Err(e),
        }
    } else if bin[pc] == 0x90 {
        match decoded_as::<ClearMessage>(bin, pc + 1) {
            Ok(code) => Ok(Opcodes::ClearMessage(code)),
            Err(e) => Err(e),
        }
    } else if bin[pc] == 0xb1 {
        match decoded_as::<SetPowerDownDelay>(bin, pc + 1) {
            Ok(code) => Ok(Opcodes::SetPowerDownDelay(code)),
            Err(e) => Err(e),
        }
    } else if bin[pc] == 0xb2 {
        match decoded_as::<SendMessage>(bin, pc + 1) {
            Ok(code) => Ok(Opcodes::SendMessage(code)),
            Err(e) => Err(e),
        }
    } else if bin[pc] == 0xf7 {
        match decoded_as::<SetMessage>(bin, pc + 1) {
            Ok(code) => Ok(Opcodes::SetMessage(code)),
            Err(e) => Err(e),
        }
    } else if bin[pc] == 0x13 {
        match decoded_as::<SetMotorPower>(bin, pc + 1) {
            Ok(code) => Ok(Opcodes::SetMotorPower(code)),
            Err(e) => Err(e),
        }
    } else if bin[pc] == 0x21 {
        match decoded_as::<SetMotorOnOff>(bin, pc + 1) {
            Ok(code) => Ok(Opcodes::SetMotorOnOff(code)),
            Err(e) => Err(e),
        }
    } else if bin[pc] == 0xe1 {
        match decoded_as::<SetMotorDirection>(bin, pc + 1) {
            Ok(code) => Ok(Opcodes::SetMotorDirection(code)),
            Err(e) => Err(e),
        }
    } else if bin[pc] == 0x32 {
        match decoded_as::<SetSensorType>(bin, pc + 1) {
            Ok(code) => Ok(Opcodes::SetSensorType(code)),
            Err(e) => Err(e),
        }
    } else if bin[pc] == 0x42 {
        match decoded_as::<SetSensorMode>(bin, pc + 1) {
            Ok(code) => Ok(Opcodes::SetSensorMode(code)),
            Err(e) => Err(e),
        }
    } else if bin[pc] == 0xa1 {
        match decoded_as::<ClearTimer>(bin, pc + 1) {
            Ok(code) => Ok(Opcodes::ClearTimer(code)),
            Err(e) => Err(e),
        }
    } else if bin[pc] == 0xd1 {
        match decoded_as::<ClearSensorValue>(bin, pc + 1) {
            Ok(code) => Ok(Opcodes::ClearSensorValue(code)),
            Err(e) => Err(e),
        }
    } else if bin[pc] == 0x17 {
        match decoded_as::<CallSubroutine>(bin, pc + 1) {
            Ok(code) => Ok(Opcodes::CallSubroutine(code)),
            Err(e) => Err(e),
        }
    } else if bin[pc] == 0x40 {
        match decoded_as::<DeleteAllTasks>(bin, pc + 1) {
            Ok(code) => Ok(Opcodes::DeleteAllTasks(code)),
            Err(e) => Err(e),
        }
    } else if bin[pc] == 0x43 {
        match decoded_as::<Wait>(bin, pc + 1) {
            Ok(code) => Ok(Opcodes::Wait(code)),
            Err(e) => Err(e),
        }
    } else if bin[pc] == 0x50 {
        match decoded_as::<StopAllTasks>(bin, pc + 1) {
            Ok(code) => Ok(Opcodes::StopAllTasks(code)),
            Err(e) => Err(e),
        }
    } else if bin[pc] == 0x61 {
        match decoded_as::<DeleteTask>(bin, pc + 1) {
            Ok(code) => Ok(Opcodes::DeleteTask(code)),
            Err(e) => Err(e),
        }
    } else if bin[pc] == 0x70 {
        match decoded_as::<DeleteAllSubroutines>(bin, pc + 1) {
            Ok(code) => Ok(Opcodes::DeleteAllSubroutines(code)),
            Err(e) => Err(e),
        }
    } else if bin[pc] == 0x71 {
        match decoded_as::<StartTask>(bin, pc + 1) {
            Ok(code) => Ok(Opcodes::StartTask(code)),
            Err(e) => Err(e),
        }
    } else if bin[pc] == 0x81 {
        match decoded_as::<StopTask>(bin, pc + 1) {
            Ok(code) => Ok(Opcodes::StopTask(code)),
            Err(e) => Err(e),
        }
    } else if bin[pc] == 0x82 {
        match decoded_as::<SetLoopCounter>(bin, pc + 1) {
            Ok(code) => Ok(Opcodes::SetLoopCounter(code)),
            Err(e) => Err(e),
        }
    } else if bin[pc] == 0x91 {
        match decoded_as::<SetProgramNumber>(bin, pc + 1) {
            Ok(code) => Ok(Opcodes::SetProgramNumber(code)),
            Err(e) => Err(e),
        }
    } else if bin[pc] == 0xc1 {
        match decoded_as::<DeleteSubroutine>(bin, pc + 1) {
            Ok(code) => Ok(Opcodes::DeleteSubroutine(code)),
            Err(e) => Err(e),
        }
    } else if bin[pc] == 0x14 {
        match decoded_as::<SetVariable>(bin, pc + 1) {
            Ok(code) => Ok(Opcodes::SetVariable(code)),
            Err(e) => Err(e),
        }
    } else if bin[pc] == 0x24 {
        match decoded_as::<AddToVariable>(bin, pc + 1) {
            Ok(code) => Ok(Opcodes::AddToVariable(code)),
            Err(e) => Err(e),
        }
    } else if bin[pc] == 0x34 {
        match decoded_as::<SubtractFromVariable>(bin, pc + 1) {
            Ok(code) => Ok(Opcodes::SubtractFromVariable(code)),
            Err(e) => Err(e),
        }
    } else if bin[pc] == 0x44 {
        match decoded_as::<DivideVariable>(bin, pc + 1) {
            Ok(code) => Ok(Opcodes::DivideVariable(code)),
            Err(e) => Err(e),
        }
    } else if bin[pc] == 0x54 {
        match decoded_as::<MultiplyVariable>(bin, pc + 1) {
            Ok(code) => Ok(Opcodes::MultiplyVariable(code)),
            Err(e) => Err(e),
        }
    } else if bin[pc] == 0x64 {
        match decoded_as::<SignVariable>(bin, pc + 1) {
            Ok(code) => Ok(Opcodes::SignVariable(code)),
            Err(e) => Err(e),
        }
    } else if bin[pc] == 0x74 {
        match decoded_as::<AbsoluteValue>(bin, pc + 1) {
            Ok(code) => Ok(Opcodes::AbsoluteValue(code)),
            Err(e) => Err(e),
        }
    } else if bin[pc] == 0x84 {
        match decoded_as::<AndVariable>(bin, pc + 1) {
            Ok(code) => Ok(Opcodes::AndVariable(code)),
            Err(e) => Err(e),
        }
    } else if bin[pc] == 0x94 {
        match decoded_as::<OrVariable>(bin, pc + 1) {
            Ok(code) => Ok(Opcodes::OrVariable(code)),
            Err(e) => Err(e),
        }
    } else if bin[pc] == 0x27 {
        match decoded_as::<BranchAlwaysNear>(bin, pc + 1) {
            Ok(code) => Ok(Opcodes::BranchAlwaysNear(code)),
            Err(e) => Err(e),
        }
    } else if bin[pc] == 0x72 {
        match decoded_as::<BranchAlwaysFar>(bin, pc + 1) {
            Ok(code) => Ok(Opcodes::BranchAlwaysFar(code)),
            Err(e) => Err(e),
        }
    } else if bin[pc] == 0x37 {
        match decoded_as::<DecrementLoopCounterNear>(bin, pc + 1) {
            Ok(code) => Ok(Opcodes::DecrementLoopCounterNear(code)),
            Err(e) => Err(e),
        }
    } else if bin[pc] == 0x92 {
        match decoded_as::<DecrementLoopCounterFar>(bin, pc + 1) {
            Ok(code) => Ok(Opcodes::DecrementLoopCounterFar(code)),
            Err(e) => Err(e),
        }
    } else if bin[pc] == 0x85 {
        match decoded_as::<TestAndBranchNear>(bin, pc + 1) {
            Ok(code) => Ok(Opcodes::TestAndBranchNear(code)),
            Err(e) => Err(e),
        }
    } else if bin[pc] == 0x95 {
        match decoded_as::<TestAndBranchFar>(bin, pc + 1) {
            Ok(code) => Ok(Opcodes::TestAndBranchFar(code)),
            Err(e) => Err(e),
        }
    } else if bin[pc] == 0x25 {
        match decoded_as::<StartTaskDownload>(bin, pc + 1) {
            Ok(code) => Ok(Opcodes::StartTaskDownload(code)),
            Err(e) => Err(e),
        }
    } else if bin[pc] == 0x35 {
        match decoded_as::<StartSubroutineDownload>(bin, pc + 1) {
            Ok(code) => Ok(Opcodes::StartSubroutineDownload(code)),
            Err(e) => Err(e),
        }
    } else if bin[pc] == 0x65 {
        match decoded_as::<DeleteFirmware>(bin, pc + 1) {
            Ok(code) => Ok(Opcodes::DeleteFirmware(code)),
            Err(e) => Err(e),
        }
    } else if bin[pc] == 0x75 {
        match decoded_as::<StartFirmwareDownload>(bin, pc + 1) {
            Ok(code) => Ok(Opcodes::StartFirmwareDownload(code)),
            Err(e) => Err(e),
        }
    } else if bin[pc] == 0xa5 {
        match decoded_as::<UnlockFirmware>(bin, pc + 1) {
            Ok(code) => Ok(Opcodes::UnlockFirmware(code)),
            Err(e) => Err(e),
        }
    } else {
        Err(Error::InvalidOpcode(bin[pc]))
    }
}

/// Reads the instruction at the program counter and moves the counter past
/// it. On an unknown opcode byte the counter has passed that byte; where
/// the input ends first, the counter stops at the end.
pub fn parse_opcode(bin: &[u8], pc: &mut usize) -> (r: Result<Opcodes, Error>)
    ensures
        r == parsed(bin@, *old(pc) as int),
        match r {
            Ok(op) => *final(pc) == *old(pc) + 1 + op.encoding().len(),
            Err(Error::InvalidOpcode(_)) => *final(pc) == *old(pc) + 1,
            Err(_) => *final(pc) == stalled(bin@, *old(pc) as int),
        },
{
    let code = read_byte(bin, pc)?;
    match code {
        0x10 => {
            let op = Alive::disasm(bin, pc)?;
            proof {
                op.encoded_size();
            }
            Ok(Opcodes::Alive(op))
        },
        0x12 => {
            let op = GetValue::disasm(bin, pc)?;
            proof {
                op.encoded_size();
            }
            Ok(Opcodes::GetValue(op))
        },
        0x15 => {
            let op = GetVersions::disasm(bin, pc)?;
            proof {
                op.encoded_size();
            }
            Ok(Opcodes::GetVersions(op))
        },
        0x20 => {
            let op = GetMemoryMap::disasm(bin, pc)?;
            proof {
                op.encoded_size();
            }
            Ok(Opcodes::GetMemoryMap(op))
        },
        0x22 => {
            let op = SetTime::disasm(bin, pc)?;
            proof {
                op.encoded_size();
            }
            Ok(Opcodes::SetTime(op))
        },
        0x23 => {
            let op = PlayTone::disasm(bin, pc)?;
            proof {
                op.encoded_size();
            }
            Ok(Opcodes::PlayTone(op))
        },
        0x30 => {
            let op = GetBatteryPower::disasm(bin, pc)?;
            proof {
                op.encoded_size();
            }
            Ok(Opcodes::GetBatteryPower(op))
        },
        0x31 => {
            let op = SetTransmitterRange::disasm(bin, pc)?;
            proof {
                op.encoded_size();
            }
            Ok(Opcodes::SetTransmitterRange(op))
        },
        0x33 => {
            let op = SetDisplay::disasm(bin, pc)?;
            proof {
                op.encoded_size();
            }
            Ok(Opcodes::SetDisplay(op))
        },
        0x51 => {
            let op = PlaySound::disasm(bin, pc)?;
            proof {
                op.encoded_size();
            }
            Ok(Opcodes::PlaySound(op))
        },
        0x52 => {
            let op = SetDatalogSize::disasm(bin, pc)?;
            proof {
                op.encoded_size();
            }
            Ok(Opcodes::SetDatalogSize(op))
        },
        0x60 => {
            let op = PowerOff::disasm(bin, pc)?;
            proof {
                op.encoded_size();
            }
            Ok(Opcodes::PowerOff(op))
        },
        0x62 => {
            let op = DatalogNext::disasm(bin, pc)?;
            proof {
                op.encoded_size();
            }
            Ok(Opcodes::DatalogNext(op))
        },
        0x90 => {
            let op = ClearMessage::disasm(bin, pc)?;
            proof {
                op.encoded_size();
            }
            Ok(Opcodes::ClearMessage(op))
        },
        0xb1 => {
            let op = SetPowerDownDelay::disasm(bin, pc)?;
            proof {
                op.encoded_size();
            }
            Ok(Opcodes::SetPowerDownDelay(op))
        },
        0xb2 => {
            let op = SendMessage::disasm(bin, pc)?;
            proof {
                op.encoded_size();
            }
            Ok(Opcodes::SendMessage(op))
        },
        0xf7 => {
            let op = SetMessage::disasm(bin, pc)?;
            proof {
                op.encoded_size();
            }
            Ok(Opcodes::SetMessage(op))
        },
        0x13 => {
            let op = SetMotorPower::disasm(bin, pc)?;
            proof {
                op.encoded_size();
            }
            Ok(Opcodes::SetMotorPower(op))
        },
        0x21 => {
            let op = SetMotorOnOff::disasm(bin, pc)?;
            proof {
                op.encoded_size();
            }
            Ok(Opcodes::SetMotorOnOff(op))
        },
        0xe1 => {
            let op = SetMotorDirection::disasm(bin, pc)?;
            proof {
                op.encoded_size();
            }
            Ok(Opcodes::SetMotorDirection(op))
        },
        0x32 => {
            let op = SetSensorType::disasm(bin, pc)?;
            proof {
                op.encoded_size();
            }
            Ok(Opcodes::SetSensorType(op))
        },
        0x42 => {
            let op = SetSensorMode::disasm(bin, pc)?;
            proof {
                op.encoded_size();
            }
            Ok(Opcodes::SetSensorMode(op))
        },
        0xa1 => {
            let op = ClearTimer::disasm(bin, pc)?;
            proof {
                op.encoded_size();
            }
            Ok(Opcodes::ClearTimer(op))
        },
        0xd1 => {
            let op = ClearSensorValue::disasm(bin, pc)?;
            proof {
                op.encoded_size();
            }
            Ok(Opcodes::ClearSensorValue(op))
        },
        0x17 => {
            let op = CallSubroutine::disasm(bin, pc)?;
            proof {
                op.encoded_size();
            }
            Ok(Opcodes::CallSubroutine(op))
        },
        0x40 => {
            let op = DeleteAllTasks::disasm(bin, pc)?;
            proof {
                op.encoded_size();
            }
            Ok(Opcodes::DeleteAllTasks(op))
        },
        0x43 => {
            let op = Wait::disasm(bin, pc)?;
            proof {
                op.encoded_size();
            }
            Ok(Opcodes::Wait(op))
        },
        0x50 => {
            let op = StopAllTasks::disasm(bin, pc)?;
            proof {
                op.encoded_size();
            }
            Ok(Opcodes::StopAllTasks(op))
        },
        0x61 => {
            let op = DeleteTask::disasm(bin, pc)?;
            proof {
                op.encoded_size();
            }
            Ok(Opcodes::DeleteTask(op))
        },
        0x70 => {
            let op = DeleteAllSubroutines::disasm(bin, pc)?;
            proof {
                op.encoded_size();
            }
            Ok(Opcodes::DeleteAllSubroutines(op))
        },
        0x71 => {
            let op = StartTask::disasm(bin, pc)?;
            proof {
                op.encoded_size();
            }
            Ok(Opcodes::StartTask(op))
        },
        0x81 => {
            let op = StopTask::disasm(bin, pc)?;
            proof {
                op.encoded_size();
            }
            Ok(Opcodes::StopTask(op))
        },
        0x82 => {
            let op = SetLoopCounter::disasm(bin, pc)?;
            proof {
                op.encoded_size();
            }
            Ok(Opcodes::SetLoopCounter(op))
        },
        0x91 => {
            let op = SetProgramNumber::disasm(bin, pc)?;
            proof {
                op.encoded_size();
            }
            Ok(Opcodes::SetProgramNumber(op))
        },
        0xc1 => {
            let op = DeleteSubroutine::disasm(bin, pc)?;
            proof {
                op.encoded_size();
            }
            Ok(Opcodes::DeleteSubroutine(op))
        },
        0x14 => {
            let op = SetVariable::disasm(bin, pc)?;
            proof {
                op.encoded_size();
            }
            Ok(Opcodes::SetVariable(op))
        },
        0x24 => {
            let op = AddToVariable::disasm(bin, pc)?;
            proof {
                op.encoded_size();
            }
            Ok(Opcodes::AddToVariable(op))
        },
        0x34 => {
            let op = SubtractFromVariable::disasm(bin, pc)?;
            proof {
                op.encoded_size();
            }
            Ok(Opcodes::SubtractFromVariable(op))
        },
        0x44 => {
            let op = DivideVariable::disasm(bin, pc)?;
            proof {
                op.encoded_size();
            }
            Ok(Opcodes::DivideVariable(op))
        },
        0x54 => {
            let op = MultiplyVariable::disasm(bin, pc)?;
            proof {
                op.encoded_size();
            }
            Ok(Opcodes::MultiplyVariable(op))
        },
        0x64 => {
            let op = SignVariable::disasm(bin, pc)?;
            proof {
                op.encoded_size();
            }
            Ok(Opcodes::SignVariable(op))
        },
        0x74 => {
            let op = AbsoluteValue::disasm(bin, pc)?;
            proof {
                op.encoded_size();
            }
            Ok(Opcodes::AbsoluteValue(op))
        },
        0x84 => {
            let op = AndVariable::disasm(bin, pc)?;
            proof {
                op.encoded_size();
            }
            Ok(Opcodes::AndVariable(op))
        },
        0x94 => {
            let op = OrVariable::disasm(bin, pc)?;
            proof {
                op.encoded_size();
            }
            Ok(Opcodes::OrVariable(op))
        },
        0x27 => {
            let op = BranchAlwaysNear::disasm(bin, pc)?;
            proof {
                op.encoded_size();
            }
            Ok(Opcodes::BranchAlwaysNear(op))
        },
        0x72 => {
            let op = BranchAlwaysFar::disasm(bin, pc)?;
            proof {
                op.encoded_size();
            }
            Ok(Opcodes::BranchAlwaysFar(op))
        },
        0x37 => {
            let op = DecrementLoopCounterNear::disasm(bin, pc)?;
            proof {
                op.encoded_size();
            }
            Ok(Opcodes::DecrementLoopCounterNear(op))
        },
        0x92 => {
            let op = DecrementLoopCounterFar::disasm(bin, pc)?;
            proof {
                op.encoded_size();
            }
            Ok(Opcodes::DecrementLoopCounterFar(op))
        },
        0x85 => {
            let op = TestAndBranchNear::disasm(bin, pc)?;
            proof {
                op.encoded_size();
            }
            Ok(Opcodes::TestAndBranchNear(op))
        },
        0x95 => {
            let op = TestAndBranchFar::disasm(bin, pc)?;
            proof {
                op.encoded_size();
            }
            Ok(Opcodes::TestAndBranchFar(op))
        },
        0x25 => {
            let op = StartTaskDownload::disasm(bin, pc)?;
            proof {
                op.encoded_size();
            }
            Ok(Opcodes::StartTaskDownload(op))
        },
        0x35 => {
            let op = StartSubroutineDownload::disasm(bin, pc)?;
            proof {
                op.encoded_size();
            }
            Ok(Opcodes::StartSubroutineDownload(op))
        },
        0x65 => {
            let op = DeleteFirmware::disasm(bin, pc)?;
            proof {
                op.encoded_size();
            }
            Ok(Opcodes::DeleteFirmware(op))
        },
        0x75 => {
            let op = StartFirmwareDownload::disasm(bin, pc)?;
            proof {
                op.encoded_size();
            }
            Ok(Opcodes::StartFirmwareDownload(op))
        },
        0xa5 => {
            let op = UnlockFirmware::disasm(bin, pc)?;
            proof {
                op.encoded_size();
            }
            Ok(Opcodes::UnlockFirmware(op))
        },
        other => Err(Error::InvalidOpcode(other)),
    }
}

/// Decoding undoes encoding, for every opcode that can stand in a program:
/// where the bytes of a program hold, from `pc`, the opcode byte of an
/// instruction and its parameter bytes, the instruction read there is
/// that instruction.
pub proof fn parse_round_trip(op: Opcodes, bin: Seq<u8>, pc: int)
    requires
        op.in_program(),
        0 <= pc,
        pc + 1 + op.encoding().len() <= bin.len(),
        bin[pc] == op.opcode(),
        bytes_at(bin, pc + 1, op.encoding().len()) == op.encoding(),
    ensures
        parsed(bin, pc) == Ok::<Opcodes, Error>(op),
{
    match op {
        Opcodes::Alive(code) => {
            code.encoded_size();
            code.round_trip(bin, pc + 1);
        },
        Opcodes::GetValue(code) => {
            code.encoded_size();
            code.round_trip(bin, pc + 1);
        },
        Opcodes::GetVersions(code) => {
            code.encoded_size();
            code.round_trip(bin, pc + 1);
        },
        Opcodes::GetMemoryMap(code) => {
            code.encoded_size();
            code.round_trip(bin, pc + 1);
        },
        Opcodes::SetTime(code) => {
            code.encoded_size();
            code.round_trip(bin, pc + 1);
        },
        Opcodes::PlayTone(code) => {
            code.encoded_size();
            code.round_trip(bin, pc + 1);
        },
        Opcodes::GetBatteryPower(code) => {
            code.encoded_size();
            code.round_trip(bin, pc + 1);
        },
        Opcodes::SetTransmitterRange(code) => {
            code.encoded_size();
            code.round_trip(bin, pc + 1);
        },
        Opcodes::SetDisplay(code) => {
            code.encoded_size();
            code.round_trip(bin, pc + 1);
        },
        Opcodes::PlaySound(code) => {
            code.encoded_size();
            code.round_trip(bin, pc + 1);
        },
        Opcodes::SetDatalogSize(code) => {
            code.encoded_size();
            code.round_trip(bin, pc + 1);
        },
        Opcodes::PowerOff(code) => {
            code.encoded_size();
            code.round_trip(bin, pc + 1);
        },
        Opcodes::DatalogNext(code) => {
            code.encoded_size();
            code.round_trip(bin, pc + 1);
        },
        Opcodes::ClearMessage(code) => {
            code.encoded_size();
            code.round_trip(bin, pc + 1);
        },
        Opcodes::SetPowerDownDelay(code) => {
            code.encoded_size();
            code.round_trip(bin, pc + 1);
        },
        Opcodes::SendMessage(code) => {
            code.encoded_size();
            code.round_trip(bin, pc + 1);
        },
        Opcodes::SetMessage(code) => {
            code.encoded_size();
            code.round_trip(bin, pc + 1);
        },
        Opcodes::SetMotorPower(code) => {
            code.encoded_size();
            code.round_trip(bin, pc + 1);
        },
        Opcodes::SetMotorOnOff(code) => {
            code.encoded_size();
            code.round_trip(bin, pc + 1);
        },
        Opcodes::SetMotorDirection(code) => {
            code.encoded_size();
            code.round_trip(bin, pc + 1);
        },
        Opcodes::SetSensorType(code) => {
            code.encoded_size();
            code.round_trip(bin, pc + 1);
        },
        Opcodes::SetSensorMode(code) => {
            code.encoded_size();
            code.round_trip(bin, pc + 1);
        },
        Opcodes::ClearTimer(code) => {
            code.encoded_size();
            code.round_trip(bin, pc + 1);
        },
        Opcodes::ClearSensorValue(code) => {
            code.encoded_size();
            code.round_trip(bin, pc + 1);
        },
        Opcodes::CallSubroutine(code) => {
            code.encoded_size();
            code.round_trip(bin, pc + 1);
        },
        Opcodes::DeleteAllTasks(code) => {
            code.encoded_size();
            code.round_trip(bin, pc + 1);
        },
        Opcodes::Wait(code) => {
            code.encoded_size();
            code.round_trip(bin, pc + 1);
        },
        Opcodes::StopAllTasks(code) => {
            code.encoded_size();
            code.round_trip(bin, pc + 1);
        },
        Opcodes::DeleteTask(code) => {
            code.encoded_size();
            code.round_trip(bin, pc + 1);
        },
        Opcodes::DeleteAllSubroutines(code) => {
            code.encoded_size();
            code.round_trip(bin, pc + 1);
        },
        Opcodes::StartTask(code) => {
            code.encoded_size();
            code.round_trip(bin, pc + 1);
        },
        Opcodes::StopTask(code) => {
            code.encoded_size();
            code.round_trip(bin, pc + 1);
        },
        Opcodes::SetLoopCounter(code) => {
            code.encoded_size();
            code.round_trip(bin, pc + 1);
        },
        Opcodes::SetProgramNumber(code) => {
            code.encoded_size();
            code.round_trip(bin, pc + 1);
        },
        Opcodes::DeleteSubroutine(code) => {
            code.encoded_size();
            code.round_trip(bin, pc + 1);
        },
        Opcodes::SetVariable(code) => {
            code.encoded_size();
            code.round_trip(bin, pc + 1);
        },
        Opcodes::AddToVariable(code) => {
            code.encoded_size();
            code.round_trip(bin, pc + 1);
        },
        Opcodes::SubtractFromVariable(code) => {
            code.encoded_size();
            code.round_trip(bin, pc + 1);
        },
        Opcodes::DivideVariable(code) => {
            code.encoded_size();
            code.round_trip(bin, pc + 1);
        },
        Opcodes::MultiplyVariable(code) => {
            code.encoded_size();
            code.round_trip(bin, pc + 1);
        },
        Opcodes::SignVariable(code) => {
            code.encoded_size();
            code.round_trip(bin, pc + 1);
        },
        Opcodes::AbsoluteValue(code) => {
            code.encoded_size();
            code.round_trip(bin, pc + 1);
        },
        Opcodes::AndVariable(code) => {
            code.encoded_size();
            code.round_trip(bin, pc + 1);
        },
        Opcodes::OrVariable(code) => {
            code.encoded_size();
            code.round_trip(bin, pc + 1);
        },
        Opcodes::BranchAlwaysNear(code) => {
            code.encoded_size();
            code.round_trip(bin, pc + 1);
        },
        Opcodes::BranchAlwaysFar(code) => {
            code.encoded_size();
            code.round_trip(bin, pc + 1);
        },
        Opcodes::DecrementLoopCounterNear(code) => {
            code.encoded_size();
            code.round_trip(bin, pc + 1);
        },
        Opcodes::DecrementLoopCounterFar(code) => {
            code.encoded_size();
            code.round_trip(bin, pc + 1);
        },
        Opcodes::TestAndBranchNear(code) => {
            code.encoded_size();
            code.round_trip(bin, pc + 1);
        },
        Opcodes::TestAndBranchFar(code) => {
            code.encoded_size();
            code.round_trip(bin, pc + 1);
        },
        Opcodes::StartTaskDownload(code) => {
            code.encoded_size();
            code.round_trip(bin, pc + 1);
        },
        Opcodes::StartSubroutineDownload(code) => {
            code.encoded_size();
            code.round_trip(bin, pc + 1);
        },
        Opcodes::DeleteFirmware(code) => {
            code.encoded_size();
            code.round_trip(bin, pc + 1);
        },
        Opcodes::StartFirmwareDownload(code) => {
            code.encoded_size();
            code.round_trip(bin, pc + 1);
        },
        Opcodes::UnlockFirmware(code) => {
            code.encoded_size();
            code.round_trip(bin, pc + 1);
        },
        Opcodes::TransferData(_) => {},
    }
}

/// An instruction that is encoded and decoded again is the same
/// instruction, for every opcode that can stand in a program and all
/// values of its parameters.
pub proof fn encode_then_parse(op: Opcodes)
    requires
        op.in_program(),
    ensures
        parsed(seq![op.opcode()] + op.encoding(), 0) == Ok::<Opcodes, Error>(op),
{
    let bin = seq![op.opcode()] + op.encoding();
    assert(bytes_at(bin, 1, op.encoding().len()) =~= op.encoding());
    parse_round_trip(op, bin, 0);
}

} // verus!
