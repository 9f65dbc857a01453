//! Host-side control and tooling library for the LEGO Mindstorms RCX brick.
//!
//! The host talks to the brick through an infrared tower. This library
//! holds everything on the way that is pure computation:
//!
//! * [`codec`]: the frames on the wire, with their complement pairs and
//!   checksums;
//! * [`opcodes`]: the catalogue of opcodes, each a record of its
//!   parameters that encodes, decodes and prints itself;
//! * [`tower`]: the state of the link, which toggles the alternate bit and
//!   paces the transmissions;
//! * [`brick`]: the commands of the brick, which check their arguments
//!   before anything is built;
//! * [`binfmt`]: the parser of the image files that the compiler writes;
//! * [`disasm`]: the disassembler for the code sections of an image;
//! * [`assembly`]: the parser of assembler source;
//! * [`nqc`]: the lexer and the syntax tree of the language NQC.
//!
//! Reading from and writing to the tower is left to the caller.

pub mod assembly;
pub mod binfmt;
pub mod brick;
pub mod codec;
pub mod disasm;
pub mod display_impls;
pub mod enums;
pub mod errors;
pub mod nqc;
pub mod opcodes;
pub mod text;
pub mod tower;

pub use brick::Rcx;
pub use enums::{
    MotorDirection, MotorPowerState, MotorSelection, MotorState, SensorMode, SensorType, Sound,
    SourceType, TransmitterRange,
};
pub use errors::Error;
