//! Parser for the RCX image format.
//!
//! ```text
//! * signature - 4 bytes, "RCXI"
//! * version - 2 bytes
//! * section count - 2 bytes
//! * symbol count - 2 bytes
//! * target type - 1 byte
//! * reserved - 1 byte
//! * for each section:
//!   - type - 1 byte
//!   - number - 1 byte
//!   - length - 2 bytes
//!   - data - <length> bytes, padded to a multiple of four
//! * for each symbol:
//!   - type - 1 byte
//!   - index - 1 byte
//!   - length - 2 bytes
//!   - name - <length> bytes, the last of them NUL
//! ```
//!
//! Integers of two bytes are little-endian.

use vstd::prelude::*;
use vstd::slice::slice_subrange;
use vstd::slice::slice_to_vec;
use vstd::string::StringExecFns;
use crate::errors::Error;
use crate::opcodes::params::{u16_from_bytes, u16_of};
use crate::text::{
    decimal, hex, hex2, hex_encode, hex_string, lossy_text, push_decimal, push_hex, push_hex2,
    push_quoted, push_repeated, quoted, repeated, utf8_lossy,
};

verus! {

/// The most sections an image may hold.
pub const MAX_SECTIONS: usize = 10;

/// The brick an image was compiled for.
#[derive(Copy, Clone, Debug, PartialEq, Eq, Structural)]
pub enum TargetType {
    /// The first RCX (bricks with firmware 0309 or earlier)
    Rcx,
    /// CyberMaster
    CyberMaster,
    /// Scout
    Scout,
    /// RCX 2.0 (bricks with firmware 0328 or later)
    Rcx2,
    /// Spybotics
    Spybotics,
    /// Dick Swan's alternate firmware
    Swan,
}

/// What a section holds.
#[derive(Copy, Clone, Debug, PartialEq, Eq, Structural)]
pub enum SectionType {
    /// The code of a task.
    Task,
    /// The code of a subroutine.
    Subroutine,
    /// A sound.
    Sound,
    /// An animation.
    Animation,
    /// The number of the types before it.
    Count,
}

/// What a symbol names.
#[derive(Copy, Clone, Debug, PartialEq, Eq, Structural)]
pub enum SymbolType {
    /// A task.
    Task,
    /// A subroutine.
    Sub,
    /// A variable.
    Var,
}

/// A numbered chunk of an image: a task, a subroutine, a sound or an
/// animation.
#[derive(Clone, Debug, PartialEq, Eq)]
pub struct Section {
    /// What the section holds.
    pub ty: SectionType,
    /// The number of the task, subroutine, sound or animation.
    pub number: u8,
    /// The length of the data in bytes, as the file states it.
    pub length: u16,
    /// The data, without its padding.
    pub data: Vec<u8>,
}

/// The name of a task, a subroutine or a variable.
#[derive(Clone, Debug, PartialEq, Eq)]
pub struct Symbol {
    /// What the symbol names.
    pub ty: SymbolType,
    /// The number of the task, subroutine or variable.
    pub index: u8,
    /// The length of the name in the file, its closing NUL included.
    pub length: u16,
    /// The name, without its closing NUL.
    pub name: Vec<u8>,
}

/// A parsed image.
#[derive(Clone, Debug, PartialEq, Eq)]
pub struct RcxBin {
    /// The four bytes `RCXI`.
    pub signature: [u8; 4],
    /// The version of the format.
    pub version: u16,
    /// The number of sections, as the header states it.
    pub section_count: u16,
    /// The number of symbols, as the header states it.
    pub symbol_count: u16,
    /// The brick the image was compiled for.
    pub target_type: TargetType,
    /// A byte without meaning.
    pub reserved: u8,
    /// The sections, in the order of the file.
    pub sections: Vec<Section>,
    /// The symbols, in the order of the file.
    pub symbols: Vec<Symbol>,
}

/// What is wrong at the place where parsing stopped.
#[derive(Copy, Clone, Debug, PartialEq, Eq, Structural)]
pub enum Flaw {
    /// The file does not start with the signature.
    Signature,
    /// The file ends before the item does.
    Truncated,
    /// The byte before this place is no known type.
    Kind,
    /// The name before this place is not closed by its only NUL.
    Name,
}

/// Where parsing stopped, and why.
#[derive(Copy, Clone, Debug, PartialEq, Eq)]
pub struct ParseFailure {
    /// The offset in the file at which parsing stopped.
    pub offset: usize,
    /// What is wrong there.
    pub flaw: Flaw,
}

/// A section as a mathematical value.
pub struct SectionView {
    pub ty: SectionType,
    pub number: u8,
    pub length: u16,
    pub data: Seq<u8>,
}

/// A symbol as a mathematical value.
pub struct SymbolView {
    pub ty: SymbolType,
    pub index: u8,
    pub length: u16,
    pub name: Seq<u8>,
}

/// An image as a mathematical value.
pub struct RcxBinView {
    pub signature: Seq<u8>,
    pub version: u16,
    pub section_count: u16,
    pub symbol_count: u16,
    pub target_type: TargetType,
    pub reserved: u8,
    pub sections: Seq<SectionView>,
    pub symbols: Seq<SymbolView>,
}

impl View for Section {
    type V = SectionView;

    open spec fn view(&self) -> SectionView {
        SectionView { ty: self.ty, number: self.number, length: self.length, data: self.data@ }
    }
}

impl View for Symbol {
    type V = SymbolView;

    open spec fn view(&self) -> SymbolView {
        SymbolView { ty: self.ty, index: self.index, length: self.length, name: self.name@ }
    }
}

/// The sections of a list as mathematical values.
pub open spec fn section_views(sections: Seq<Section>) -> Seq<SectionView> {
    sections.map_values(|section: Section| section@)
}

/// The symbols of a list as mathematical values.
pub open spec fn symbol_views(symbols: Seq<Symbol>) -> Seq<SymbolView> {
    symbols.map_values(|symbol: Symbol| symbol@)
}

impl View for RcxBin {
    type V = RcxBinView;

    open spec fn view(&self) -> RcxBinView {
        RcxBinView {
            signature: self.signature@,
            version: self.version,
            section_count: self.section_count,
            symbol_count: self.symbol_count,
            target_type: self.target_type,
            reserved: self.reserved,
            sections: section_views(self.sections@),
            symbols: symbol_views(self.symbols@),
        }
    }
}

/// The four bytes every image starts with: `RCXI`.
pub open spec fn signature() -> Seq<u8> {
    seq![0x52u8, 0x43u8, 0x58u8, 0x49u8]
}

/// A failure at an offset.
pub open spec fn failure(offset: int, flaw: Flaw) -> ParseFailure {
    ParseFailure { offset: offset as usize, flaw }
}

/// The byte at `pos`, and the position behind it.
pub open spec fn u8_at(bin: Seq<u8>, pos: int) -> Result<(u8, int), ParseFailure> {
    if 0 <= pos < bin.len() {
        Ok((bin[pos], pos + 1))
    } else {
        Err(failure(pos, Flaw::Truncated))
    }
}

/// The little-endian word at `pos`, and the position behind it.
pub open spec fn u16_at(bin: Seq<u8>, pos: int) -> Result<(u16, int), ParseFailure> {
    if 0 <= pos && pos + 2 <= bin.len() {
        Ok((u16_of(bin[pos], bin[pos + 1]), pos + 2))
    } else {
        Err(failure(pos, Flaw::Truncated))
    }
}

/// The `n` bytes from `pos`, and the position behind them.
pub open spec fn bytes_from(bin: Seq<u8>, pos: int, n: int) -> Result<
    (Seq<u8>, int),
    ParseFailure,
> {
    if 0 <= pos && 0 <= n && pos + n <= bin.len() {
        Ok((bin.subrange(pos, pos + n), pos + n))
    } else {
        Err(failure(pos, Flaw::Truncated))
    }
}

/// The target type a byte stands for.
pub open spec fn target_type_of(code: u8) -> Option<TargetType> {
    if code == 0 {
        Some(TargetType::Rcx)
    } else if code == 1 {
        Some(TargetType::CyberMaster)
    } else if code == 2 {
        Some(TargetType::Scout)
    } else if code == 3 {
        Some(TargetType::Rcx2)
    } else if code == 4 {
        Some(TargetType::Spybotics)
    } else if code == 5 {
        Some(TargetType::Swan)
    } else {
        None
    }
}

/// The section type a byte stands for.
pub open spec fn section_type_of(code: u8) -> Option<SectionType> {
    if code == 0 {
        Some(SectionType::Task)
    } else if code == 1 {
        Some(SectionType::Subroutine)
    } else if code == 2 {
        Some(SectionType::Sound)
    } else if code == 3 {
        Some(SectionType::Animation)
    } else if code == 4 {
        Some(SectionType::Count)
    } else {
        None
    }
}

/// The symbol type a byte stands for.
pub open spec fn symbol_type_of(code: u8) -> Option<SymbolType> {
    if code == 0 {
        Some(SymbolType::Task)
    } else if code == 1 {
        Some(SymbolType::Sub)
    } else if code == 2 {
        Some(SymbolType::Var)
    } else {
        None
    }
}

/// The target type at `pos`, and the position behind it. A byte that stands
/// for none fails behind the byte.
pub open spec fn target_type_at(bin: Seq<u8>, pos: int) -> Result<(TargetType, int), ParseFailure> {
    match u8_at(bin, pos) {
        Err(e) => Err(e),
        Ok((code, next)) => match target_type_of(code) {
            Some(ty) => Ok((ty, next)),
            None => Err(failure(next, Flaw::Kind)),
        },
    }
}

/// The section type at `pos`, and the position behind it. A byte that
/// stands for none fails behind the byte.
pub open spec fn section_type_at(bin: Seq<u8>, pos: int) -> Result<
    (SectionType, int),
    ParseFailure,
> {
    match u8_at(bin, pos) {
        Err(e) => Err(e),
        Ok((code, next)) => match section_type_of(code) {
            Some(ty) => Ok((ty, next)),
            None => Err(failure(next, Flaw::Kind)),
        },
    }
}

/// The symbol type at `pos`, and the position behind it. A byte that stands
/// for none fails behind the byte.
pub open spec fn symbol_type_at(bin: Seq<u8>, pos: int) -> Result<(SymbolType, int), ParseFailure> {
    match u8_at(bin, pos) {
        Err(e) => Err(e),
        Ok((code, next)) => match symbol_type_of(code) {
            Some(ty) => Ok((ty, next)),
            None => Err(failure(next, Flaw::Kind)),
        },
    }
}

/// The number of bytes that pad data of a length to a multiple of four.
pub open spec fn padding(length: u16) -> int {
    (4 - length % 4) % 4
}

/// The section that starts at `pos`, and the position behind its padding.
pub open spec fn section_at(bin: Seq<u8>, pos: int) -> Result<(SectionView, int), ParseFailure> {
    match section_type_at(bin, pos) {
        Err(e) => Err(e),
        Ok((ty, at_number)) => match u8_at(bin, at_number) {
            Err(e) => Err(e),
            Ok((number, at_length)) => match u16_at(bin, at_length) {
                Err(e) => Err(e),
                Ok((length, at_data)) => match bytes_from(bin, at_data, length as int) {
                    Err(e) => Err(e),
                    Ok((data, at_padding)) => match bytes_from(bin, at_padding, padding(length)) {
                        Err(e) => Err(e),
                        Ok((_, end)) => Ok((SectionView { ty, number, length, data }, end)),
                    },
                },
            },
        },
    }
}

/// Whether bytes are a C string: the last byte is NUL, and no other is.
pub open spec fn is_c_string(bytes: Seq<u8>) -> bool {
    &&& bytes.len() >= 1
    &&& bytes.last() == 0
    &&& forall|i: int| 0 <= i < bytes.len() - 1 ==> bytes[i] != 0
}

/// The symbol that starts at `pos`, and the position behind it.
pub open spec fn symbol_at(bin: Seq<u8>, pos: int) -> Result<(SymbolView, int), ParseFailure> {
    match symbol_type_at(bin, pos) {
        Err(e) => Err(e),
        Ok((ty, at_index)) => match u8_at(bin, at_index) {
            Err(e) => Err(e),
            Ok((index, at_length)) => match u16_at(bin, at_length) {
                Err(e) => Err(e),
                Ok((length, at_name)) => match bytes_from(bin, at_name, length as int) {
                    Err(e) => Err(e),
                    Ok((name, end)) => if is_c_string(name) {
                        Ok((SymbolView { ty, index, length, name: name.drop_last() }, end))
                    } else {
                        Err(failure(end, Flaw::Name))
                    },
                },
            },
        },
    }
}

/// The `n` sections that follow each other from `pos`, and the position
/// behind the last.
pub open spec fn sections_at(bin: Seq<u8>, pos: int, n: nat) -> Result<
    (Seq<SectionView>, int),
    ParseFailure,
>
    decreases n,
{
    if n == 0 {
        Ok((Seq::empty(), pos))
    } else {
        match sections_at(bin, pos, (n - 1) as nat) {
            Err(e) => Err(e),
            Ok((sections, at)) => match section_at(bin, at) {
                Err(e) => Err(e),
                Ok((section, end)) => Ok((sections.push(section), end)),
            },
        }
    }
}

/// The `n` symbols that follow each other from `pos`, and the position
/// behind the last.
pub open spec fn symbols_at(bin: Seq<u8>, pos: int, n: nat) -> Result<
    (Seq<SymbolView>, int),
    ParseFailure,
>
    decreases n,
{
    if n == 0 {
        Ok((Seq::empty(), pos))
    } else {
        match symbols_at(bin, pos, (n - 1) as nat) {
            Err(e) => Err(e),
            Ok((symbols, at)) => match symbol_at(bin, at) {
                Err(e) => Err(e),
                Ok((symbol, end)) => Ok((symbols.push(symbol), end)),
            },
        }
    }
}

/// The fixed part at the start of an image.
pub struct Header {
    pub version: u16,
    pub section_count: u16,
    pub symbol_count: u16,
    pub target_type: TargetType,
    pub reserved: u8,
}

/// The header at the start of a file, which ends at offset 12.
pub open spec fn header_of(bin: Seq<u8>) -> Result<Header, ParseFailure> {
    if !(bin.len() >= 4 && bin.subrange(0, 4) == signature()) {
        Err(failure(0, Flaw::Signature))
    } else {
        match u16_at(bin, 4) {
            Err(e) => Err(e),
            Ok((version, _)) => match u16_at(bin, 6) {
                Err(e) => Err(e),
                Ok((section_count, _)) => match u16_at(bin, 8) {
                    Err(e) => Err(e),
                    Ok((symbol_count, _)) => match target_type_at(bin, 10) {
                        Err(e) => Err(e),
                        Ok((target_type, _)) => match u8_at(bin, 11) {
                            Err(e) => Err(e),
                            Ok((reserved, _)) => Ok(
                                Header {
                                    version,
                                    section_count,
                                    symbol_count,
                                    target_type,
                                    reserved,
                                },
                            ),
                        },
                    },
                },
            },
        }
    }
}

/// The image that a file holds: the header, then as many sections and then
/// as many symbols as the header counts. What follows them is ignored.
pub open spec fn image_of(bin: Seq<u8>) -> Result<RcxBinView, ParseFailure> {
    match header_of(bin) {
        Err(e) => Err(e),
        Ok(header) => match sections_at(bin, 12, header.section_count as nat) {
            Err(e) => Err(e),
            Ok((sections, at_symbols)) => match symbols_at(
                bin,
                at_symbols,
                header.symbol_count as nat,
            ) {
                Err(e) => Err(e),
                Ok((symbols, _)) => Ok(
                    RcxBinView {
                        signature: signature(),
                        version: header.version,
                        section_count: header.section_count,
                        symbol_count: header.symbol_count,
                        target_type: header.target_type,
                        reserved: header.reserved,
                        sections,
                        symbols,
                    },
                ),
            },
        },
    }
}

impl RcxBinView {
    /// Whether the counts of the header are the numbers of sections and
    /// symbols held, and every symbol's name is a C string without its
    /// closing NUL, of the length that the symbol states.
    pub open spec fn well_formed(self) -> bool {
        &&& self.signature == signature()
        &&& self.section_count == self.sections.len()
        &&& self.symbol_count == self.symbols.len()
        &&& forall|i: int|
            0 <= i < self.symbols.len() ==> is_c_string((#[trigger] self.symbols[i]).name.push(0))
                && self.symbols[i].length == self.symbols[i].name.len() + 1
        &&& forall|i: int|
            0 <= i < self.sections.len() ==> (#[trigger] self.sections[i]).length
                == self.sections[i].data.len()
    }

    /// Whether two sections have the same type and number.
    pub open spec fn has_repeated_section(self) -> bool {
        exists|i: int, j: int|
            0 <= i < j < self.sections.len() && (#[trigger] self.sections[i]).ty == (
            #[trigger] self.sections[j]).ty && self.sections[i].number == self.sections[j].number
    }

    /// Whether the image holds as many sections as it counts, at most ten.
    pub open spec fn has_valid_count(self) -> bool {
        self.section_count == self.sections.len() && self.sections.len() <= MAX_SECTIONS
    }
}

/// Reads the byte at `*pos` and moves the position behind it.
pub fn take_u8(bin: &[u8], pos: &mut usize) -> (r: Result<u8, ParseFailure>)
    ensures
        match r {
            Ok(value) => u8_at(bin@, *old(pos) as int) == Ok::<(u8, int), ParseFailure>(
                (value, *final(pos) as int),
            ),
            Err(e) => u8_at(bin@, *old(pos) as int) == Err::<(u8, int), ParseFailure>(e)
                && *final(pos) == *old(pos),
        },
{
    let at = *pos;
    if at < bin.len() {
        *pos = at + 1;
        Ok(bin[at])
    } else {
        Err(ParseFailure { offset: at, flaw: Flaw::Truncated })
    }
}

/// Reads the little-endian word at `*pos` and moves the position behind it.
pub fn take_u16(bin: &[u8], pos: &mut usize) -> (r: Result<u16, ParseFailure>)
    ensures
        match r {
            Ok(value) => u16_at(bin@, *old(pos) as int) == Ok::<(u16, int), ParseFailure>(
                (value, *final(pos) as int),
            ),
            Err(e) => u16_at(bin@, *old(pos) as int) == Err::<(u16, int), ParseFailure>(e)
                && *final(pos) == *old(pos),
        },
{
    let at = *pos;
    if at <= bin.len() && bin.len() - at >= 2 {
        *pos = at + 2;
        Ok(u16_from_bytes(bin[at], bin[at + 1]))
    } else {
        Err(ParseFailure { offset: at, flaw: Flaw::Truncated })
    }
}

/// Reads `n` bytes from `*pos` and moves the position behind them.
pub fn take_bytes(bin: &[u8], pos: &mut usize, n: usize) -> (r: Result<Vec<u8>, ParseFailure>)
    ensures
        match r {
            Ok(bytes) => bytes_from(bin@, *old(pos) as int, n as int) == Ok::<
                (Seq<u8>, int),
                ParseFailure,
            >((bytes@, *final(pos) as int)),
            Err(e) => bytes_from(bin@, *old(pos) as int, n as int) == Err::<
                (Seq<u8>, int),
                ParseFailure,
            >(e) && *final(pos) == *old(pos),
        },
{
    let at = *pos;
    if at <= bin.len() && bin.len() - at >= n {
        *pos = at + n;
        Ok(slice_to_vec(slice_subrange(bin, at, at + n)))
    } else {
        Err(ParseFailure { offset: at, flaw: Flaw::Truncated })
    }
}

impl TargetType {
    /// Reads a target type at `*pos` and moves the position behind it.
    pub fn parse(bin: &[u8], pos: &mut usize) -> (r: Result<Self, ParseFailure>)
        ensures
            match r {
                Ok(ty) => target_type_at(bin@, *old(pos) as int) == Ok::<
                    (TargetType, int),
                    ParseFailure,
                >((ty, *final(pos) as int)),
                Err(e) => target_type_at(bin@, *old(pos) as int) == Err::<
                    (TargetType, int),
                    ParseFailure,
                >(e) && *final(pos) == *old(pos),
            },
    {
        let start = *pos;
        let code = take_u8(bin, pos)?;
        let ty = match code {
            0 => Self::Rcx,
            1 => Self::CyberMaster,
            2 => Self::Scout,
            3 => Self::Rcx2,
            4 => Self::Spybotics,
            5 => Self::Swan,
            _ => {
                let offset = *pos;
                *pos = start;
                return Err(ParseFailure { offset, flaw: Flaw::Kind });
            },
        };
        Ok(ty)
    }

    /// The name of the target type.
    pub open spec fn name(self) -> Seq<char> {
        match self {
            Self::Rcx => "Rcx"@,
            Self::CyberMaster => "CyberMaster"@,
            Self::Scout => "Scout"@,
            Self::Rcx2 => "Rcx2"@,
            Self::Spybotics => "Spybotics"@,
            Self::Swan => "Swan"@,
        }
    }

    /// The name of the target type.
    pub fn to_string(&self) -> (r: String)
        ensures
            r@ == self.name(),
    {
        match self {
            Self::Rcx => String::from_str("Rcx"),
            Self::CyberMaster => String::from_str("CyberMaster"),
            Self::Scout => String::from_str("Scout"),
            Self::Rcx2 => String::from_str("Rcx2"),
            Self::Spybotics => String::from_str("Spybotics"),
            Self::Swan => String::from_str("Swan"),
        }
    }
}

impl SectionType {
    /// Reads a section type at `*pos` and moves the position behind it.
    pub fn parse(bin: &[u8], pos: &mut usize) -> (r: Result<Self, ParseFailure>)
        ensures
            match r {
                Ok(ty) => section_type_at(bin@, *old(pos) as int) == Ok::<
                    (SectionType, int),
                    ParseFailure,
                >((ty, *final(pos) as int)),
                Err(e) => section_type_at(bin@, *old(pos) as int) == Err::<
                    (SectionType, int),
                    ParseFailure,
                >(e) && *final(pos) == *old(pos),
            },
    {
        let start = *pos;
        let code = take_u8(bin, pos)?;
        let ty = match code {
            0 => Self::Task,
            1 => Self::Subroutine,
            2 => Self::Sound,
            3 => Self::Animation,
            4 => Self::Count,
            _ => {
                let offset = *pos;
                *pos = start;
                return Err(ParseFailure { offset, flaw: Flaw::Kind });
            },
        };
        Ok(ty)
    }

    /// The name of the section type.
    pub open spec fn name(self) -> Seq<char> {
        match self {
            Self::Task => "Task"@,
            Self::Subroutine => "Subroutine"@,
            Self::Sound => "Sound"@,
            Self::Animation => "Animation"@,
            Self::Count => "Count"@,
        }
    }

    /// The name of the section type.
    pub fn to_string(&self) -> (r: String)
        ensures
            r@ == self.name(),
    {
        match self {
            Self::Task => String::from_str("Task"),
            Self::Subroutine => String::from_str("Subroutine"),
            Self::Sound => String::from_str("Sound"),
            Self::Animation => String::from_str("Animation"),
            Self::Count => String::from_str("Count"),
        }
    }
}

impl SymbolType {
    /// Reads a symbol type at `*pos` and moves the position behind it.
    pub fn parse(bin: &[u8], pos: &mut usize) -> (r: Result<Self, ParseFailure>)
        ensures
            match r {
                Ok(ty) => symbol_type_at(bin@, *old(pos) as int) == Ok::<
                    (SymbolType, int),
                    ParseFailure,
                >((ty, *final(pos) as int)),
                Err(e) => symbol_type_at(bin@, *old(pos) as int) == Err::<
                    (SymbolType, int),
                    ParseFailure,
                >(e) && *final(pos) == *old(pos),
            },
    {
        let start = *pos;
        let code = take_u8(bin, pos)?;
        let ty = match code {
            0 => Self::Task,
            1 => Self::Sub,
            2 => Self::Var,
            _ => {
                let offset = *pos;
                *pos = start;
                return Err(ParseFailure { offset, flaw: Flaw::Kind });
            },
        };
        Ok(ty)
    }

    /// The name of the symbol type.
    pub open spec fn name(self) -> Seq<char> {
        match self {
            Self::Task => "Task"@,
            Self::Sub => "Sub"@,
            Self::Var => "Var"@,
        }
    }

    /// The name of the symbol type.
    pub fn to_string(&self) -> (r: String)
        ensures
            r@ == self.name(),
    {
        match self {
            Self::Task => String::from_str("Task"),
            Self::Sub => String::from_str("Sub"),
            Self::Var => String::from_str("Var"),
        }
    }
}

/// Reads the section at `*pos` and moves the position behind its padding.
pub fn parse_section(bin: &[u8], pos: &mut usize) -> (r: Result<Section, ParseFailure>)
    ensures
        match r {
            Ok(section) => section_at(bin@, *old(pos) as int) == Ok::<
                (SectionView, int),
                ParseFailure,
            >((section@, *final(pos) as int)),
            Err(e) => section_at(bin@, *old(pos) as int) == Err::<(SectionView, int), ParseFailure>(
                e,
            ),
        },
{
    let ty = SectionType::parse(bin, pos)?;
    let number = take_u8(bin, pos)?;
    let length = take_u16(bin, pos)?;
    let data = take_bytes(bin, pos, length as usize)?;
    let _padding = take_bytes(bin, pos, ((4 - length % 4) % 4) as usize)?;
    Ok(Section { ty, number, length, data })
}

/// Whether bytes are a C string: the last byte is NUL, and no other is.
pub fn is_nul_terminated(bytes: &[u8]) -> (r: bool)
    ensures
        r == is_c_string(bytes@),
{
    if bytes.len() == 0 || bytes[bytes.len() - 1] != 0 {
        return false;
    }
    let mut i: usize = 0;
    while i < bytes.len() - 1
        invariant
            i <= bytes.len() - 1,
            bytes.len() >= 1,
            forall|k: int| 0 <= k < i ==> bytes@[k] != 0,
        decreases bytes.len() - 1 - i,
    {
        if bytes[i] == 0 {
            return false;
        }
        i += 1;
    }
    true
}

/// Reads the symbol at `*pos` and moves the position behind it.
pub fn parse_symbol(bin: &[u8], pos: &mut usize) -> (r: Result<Symbol, ParseFailure>)
    ensures
        match r {
            Ok(symbol) => symbol_at(bin@, *old(pos) as int) == Ok::<
                (SymbolView, int),
                ParseFailure,
            >((symbol@, *final(pos) as int)),
            Err(e) => symbol_at(bin@, *old(pos) as int) == Err::<(SymbolView, int), ParseFailure>(
                e,
            ),
        },
{
    let ty = SymbolType::parse(bin, pos)?;
    let index = take_u8(bin, pos)?;
    let length = take_u16(bin, pos)?;
    let mut name = take_bytes(bin, pos, length as usize)?;
    if !is_nul_terminated(name.as_slice()) {
        return Err(ParseFailure { offset: *pos, flaw: Flaw::Name });
    }
    name.pop();
    Ok(Symbol { ty, index, length, name })
}

/// Sections that fail to parse fail for every greater count as well.
proof fn lemma_sections_fail(bin: Seq<u8>, pos: int, n: nat, m: nat)
    requires
        n <= m,
        sections_at(bin, pos, n) is Err,
    ensures
        sections_at(bin, pos, m) == sections_at(bin, pos, n),
    decreases m,
{
    if n < m {
        lemma_sections_fail(bin, pos, n, (m - 1) as nat);
    }
}

/// Symbols that fail to parse fail for every greater count as well.
proof fn lemma_symbols_fail(bin: Seq<u8>, pos: int, n: nat, m: nat)
    requires
        n <= m,
        symbols_at(bin, pos, n) is Err,
    ensures
        symbols_at(bin, pos, m) == symbols_at(bin, pos, n),
    decreases m,
{
    if n < m {
        lemma_symbols_fail(bin, pos, n, (m - 1) as nat);
    }
}

/// Reads `n` sections from `*pos` and moves the position behind them.
pub fn parse_sections(bin: &[u8], pos: &mut usize, n: u16) -> (r: Result<
    Vec<Section>,
    ParseFailure,
>)
    ensures
        match r {
            Ok(sections) => sections_at(bin@, *old(pos) as int, n as nat) == Ok::<
                (Seq<SectionView>, int),
                ParseFailure,
            >((section_views(sections@), *final(pos) as int)),
            Err(e) => sections_at(bin@, *old(pos) as int, n as nat) == Err::<
                (Seq<SectionView>, int),
                ParseFailure,
            >(e),
        },
{
    let mut sections: Vec<Section> = Vec::new();
    let mut i: u16 = 0;
    assert(section_views(sections@) =~= Seq::<SectionView>::empty());
    while i < n
        invariant
            i <= n,
            sections_at(bin@, *old(pos) as int, i as nat) == Ok::<
                (Seq<SectionView>, int),
                ParseFailure,
            >((section_views(sections@), *pos as int)),
        decreases n - i,
    {
        let ghost before = sections@;
        match parse_section(bin, pos) {
            Ok(section) => {
                sections.push(section);
                assert(section_views(sections@) =~= section_views(before).push(section@));
            },
            Err(e) => {
                proof {
                    lemma_sections_fail(bin@, *old(pos) as int, (i + 1) as nat, n as nat);
                }
                return Err(e);
            },
        }
        i += 1;
    }
    Ok(sections)
}

/// Reads `n` symbols from `*pos` and moves the position behind them.
pub fn parse_symbols(bin: &[u8], pos: &mut usize, n: u16) -> (r: Result<Vec<Symbol>, ParseFailure>)
    ensures
        match r {
            Ok(symbols) => symbols_at(bin@, *old(pos) as int, n as nat) == Ok::<
                (Seq<SymbolView>, int),
                ParseFailure,
            >((symbol_views(symbols@), *final(pos) as int)),
            Err(e) => symbols_at(bin@, *old(pos) as int, n as nat) == Err::<
                (Seq<SymbolView>, int),
                ParseFailure,
            >(e),
        },
{
    let mut symbols: Vec<Symbol> = Vec::new();
    let mut i: u16 = 0;
    assert(symbol_views(symbols@) =~= Seq::<SymbolView>::empty());
    while i < n
        invariant
            i <= n,
            symbols_at(bin@, *old(pos) as int, i as nat) == Ok::<
                (Seq<SymbolView>, int),
                ParseFailure,
            >((symbol_views(symbols@), *pos as int)),
        decreases n - i,
    {
        let ghost before = symbols@;
        match parse_symbol(bin, pos) {
            Ok(symbol) => {
                symbols.push(symbol);
                assert(symbol_views(symbols@) =~= symbol_views(before).push(symbol@));
            },
            Err(e) => {
                proof {
                    lemma_symbols_fail(bin@, *old(pos) as int, (i + 1) as nat, n as nat);
                }
                return Err(e);
            },
        }
        i += 1;
    }
    Ok(symbols)
}

/// Whether the file starts with the signature.
pub fn has_signature(bin: &[u8]) -> (r: bool)
    ensures
        r == (bin@.len() >= 4 && bin@.subrange(0, 4) == signature()),
{
    if bin.len() < 4 {
        return false;
    }
    let found = bin[0] == 0x52 && bin[1] == 0x43 && bin[2] == 0x58 && bin[3] == 0x49;
    proof {
        if found {
            assert(bin@.subrange(0, 4) =~= signature());
        } else {
            assert(bin@.subrange(0, 4)[0] == bin@[0]);
            assert(bin@.subrange(0, 4)[1] == bin@[1]);
            assert(bin@.subrange(0, 4)[2] == bin@[2]);
            assert(bin@.subrange(0, 4)[3] == bin@[3]);
        }
    }
    found
}

/// Reads an image from the bytes of a file: the header, then as many
/// sections and symbols as the header counts.
pub fn parse(bin: &[u8]) -> (r: Result<RcxBin, ParseFailure>)
    ensures
        match r {
            Ok(image) => image_of(bin@) == Ok::<RcxBinView, ParseFailure>(image@),
            Err(e) => image_of(bin@) == Err::<RcxBinView, ParseFailure>(e),
        },
{
    if !has_signature(bin) {
        return Err(ParseFailure { offset: 0, flaw: Flaw::Signature });
    }
    let mut pos: usize = 4;
    let version = take_u16(bin, &mut pos)?;
    let section_count = take_u16(bin, &mut pos)?;
    let symbol_count = take_u16(bin, &mut pos)?;
    let target_type = TargetType::parse(bin, &mut pos)?;
    let reserved = take_u8(bin, &mut pos)?;
    let sections = parse_sections(bin, &mut pos, section_count)?;
    let symbols = parse_symbols(bin, &mut pos, symbol_count)?;
    let signature: [u8; 4] = [0x52, 0x43, 0x58, 0x49];
    assert(signature@ =~= self::signature());
    Ok(
        RcxBin {
            signature,
            version,
            section_count,
            symbol_count,
            target_type,
            reserved,
            sections,
            symbols,
        },
    )
}

/// The first line of a hex dump: the low digit of every column.
pub open spec fn hexdump_header() -> Seq<char> {
    "       0  1  2  3  4  5  6  7  8  9  a  b  c  d  e  f\n"@
}

/// Bytes in hexadecimal, a space before each.
pub open spec fn spaced_bytes(bytes: Seq<u8>) -> Seq<char>
    decreases bytes.len(),
{
    if bytes.len() == 0 {
        Seq::empty()
    } else {
        spaced_bytes(bytes.drop_last()) + seq![' '] + hex2(bytes.last() as nat)
    }
}

/// The bytes of line `k` of a hex dump: sixteen, or what is left.
pub open spec fn hexdump_chunk(bin: Seq<u8>, k: int) -> Seq<u8> {
    if 16 * k + 16 <= bin.len() {
        bin.subrange(16 * k, 16 * k + 16)
    } else {
        bin.subrange(16 * k, bin.len() as int)
    }
}

/// The marker under the byte at `pos`.
pub open spec fn hexdump_marker(pos: int) -> Seq<char> {
    "     "@ + repeated(' ', (3 * (pos % 16)) as nat) + "^<<\n"@
}

/// Line `k` of a hex dump: the offset of its first byte, its bytes, and
/// under it the marker if the byte at `pos` is on the line.
pub open spec fn hexdump_line(bin: Seq<u8>, k: int, pos: int) -> Seq<char> {
    let line = "0x"@ + hex2((16 * k) as nat) + ":"@ + spaced_bytes(hexdump_chunk(bin, k)) + "\n"@;
    if pos / 16 == k {
        line + hexdump_marker(pos)
    } else {
        line
    }
}

/// The first `n` lines of a hex dump.
pub open spec fn hexdump_lines(bin: Seq<u8>, n: nat, pos: int) -> Seq<char>
    decreases n,
{
    if n == 0 {
        Seq::empty()
    } else {
        hexdump_lines(bin, (n - 1) as nat, pos) + hexdump_line(bin, n - 1, pos)
    }
}

/// The number of lines that a hex dump of `len` bytes takes.
pub open spec fn hexdump_line_count(len: nat) -> nat {
    ((len + 15) / 16) as nat
}

/// A hex dump of a file, sixteen bytes to the line, with a marker under
/// the byte at `pos`. Where `pos` lies behind the last line there is no
/// marker.
pub open spec fn hexdump(bin: Seq<u8>, pos: int) -> Seq<char> {
    hexdump_header() + hexdump_lines(bin, hexdump_line_count(bin.len()), pos)
}

/// Appends bytes in hexadecimal, a space before each.
fn push_spaced_bytes(out: &mut String, bytes: &[u8])
    ensures
        final(out)@ == old(out)@ + spaced_bytes(bytes@),
{
    let mut i: usize = 0;
    assert(bytes@.take(0) =~= Seq::<u8>::empty());
    assert(out@ =~= old(out)@ + spaced_bytes(bytes@.take(0)));
    while i < bytes.len()
        invariant
            i <= bytes.len(),
            out@ == old(out)@ + spaced_bytes(bytes@.take(i as int)),
        decreases bytes.len() - i,
    {
        proof {
            let next = bytes@.take(i + 1);
            assert(next.drop_last() =~= bytes@.take(i as int));
            assert(next.last() == bytes@[i as int]);
        }
        out.push(' ');
        push_hex2(out, bytes[i] as usize);
        i += 1;
        assert(out@ =~= old(out)@ + spaced_bytes(bytes@.take(i as int)));
    }
    assert(bytes@.take(i as int) =~= bytes@);
}

/// Renders line `idx` of a hex dump.
fn hexdump_line_text(bin: &[u8], idx: usize, pos: usize) -> (out: String)
    requires
        16 * idx < bin@.len(),
    ensures
        out@ == hexdump_line(bin@, idx as int, pos as int),
{
    let len = bin.len();
    let start = idx * 16;
    let end = if len - start >= 16 {
        start + 16
    } else {
        len
    };
    let mut out = String::from_str("0x");
    push_hex2(&mut out, start);
    out.append(":");
    push_spaced_bytes(&mut out, slice_subrange(bin, start, end));
    out.append("\n");
    if pos / 16 == idx {
        let mut marker = String::from_str("     ");
        push_repeated(&mut marker, ' ', 3 * (pos % 16));
        marker.append("^<<\n");
        out.append(marker.as_str());
    }
    out
}

/// Renders a hex dump of a file with a marker under the byte at `pos`.
pub fn print_hex_with_marker_at(bin: &[u8], pos: usize) -> (out: String)
    ensures
        out@ == hexdump(bin@, pos as int),
{
    let lines = if bin.len() % 16 == 0 {
        bin.len() / 16
    } else {
        bin.len() / 16 + 1
    };
    assert(lines == hexdump_line_count(bin@.len()));
    let mut body = String::new();
    let mut idx: usize = 0;
    while idx < lines
        invariant
            idx <= lines,
            lines == hexdump_line_count(bin@.len()),
            body@ == hexdump_lines(bin@, idx as nat, pos as int),
        decreases lines - idx,
    {
        let line = hexdump_line_text(bin, idx, pos);
        body.append(line.as_str());
        idx += 1;
    }
    let mut out = String::from_str("       0  1  2  3  4  5  6  7  8  9  a  b  c  d  e  f\n");
    out.append(body.as_str());
    out
}

impl Flaw {
    /// What the flaw is, in words.
    pub open spec fn text(self) -> Seq<char> {
        match self {
            Self::Signature => "Missing signature"@,
            Self::Truncated => "Unexpected end of input"@,
            Self::Kind => "Unknown type"@,
            Self::Name => "Name is not NUL-terminated"@,
        }
    }

    /// What the flaw is, in words.
    pub fn as_str(&self) -> (r: &'static str)
        ensures
            r@ == self.text(),
    {
        match self {
            Self::Signature => "Missing signature",
            Self::Truncated => "Unexpected end of input",
            Self::Kind => "Unknown type",
            Self::Name => "Name is not NUL-terminated",
        }
    }
}

/// What is said of a file that is refused: what is wrong, the offset at
/// which it is wrong, and a hex dump of the file with a marker at the
/// offset.
pub open spec fn located_message(bin: Seq<u8>, said: Seq<char>, offset: int) -> Seq<char> {
    said + " at offset "@ + decimal(offset as nat) + "\n"@ + hexdump(bin, offset)
}

/// What is said of a file that failed to parse.
pub open spec fn failure_message(bin: Seq<u8>, failure: ParseFailure) -> Seq<char> {
    located_message(bin, failure.flaw.text(), failure.offset as int)
}

/// Renders what is said of a file that is refused.
pub fn describe(bin: &[u8], said: &str, offset: usize) -> (out: String)
    ensures
        out@ == located_message(bin@, said@, offset as int),
{
    let mut out = String::from_str(said);
    out.append(" at offset ");
    push_decimal(&mut out, offset);
    out.append("\n");
    let dump = print_hex_with_marker_at(bin, offset);
    out.append(dump.as_str());
    assert(out@ =~= located_message(bin@, said@, offset as int));
    out
}

/// What is said of an image that does not hold as many sections as it
/// counts, or more than ten.
pub open spec fn invalid_count_message() -> Seq<char> {
    "Invalid number of chunks"@
}

/// What is said of an image in which two sections have the same type and
/// number.
pub open spec fn repeated_section_message() -> Seq<char> {
    "Nonunique chunk numbers"@
}

/// Whether section `j` has the type and number of an earlier one.
pub open spec fn repeats(sections: Seq<SectionView>, j: int) -> bool {
    exists|i: int|
        0 <= i < j && (#[trigger] sections[i]).ty == sections[j].ty && sections[i].number
            == sections[j].number
}

/// The first section at or after `from` that has the type and number of
/// an earlier one, or the number of sections if there is none.
pub open spec fn first_repeat(sections: Seq<SectionView>, from: int) -> int
    decreases sections.len() - from,
{
    if from < 0 || from >= sections.len() {
        sections.len() as int
    } else if repeats(sections, from) {
        from
    } else {
        first_repeat(sections, from + 1)
    }
}

/// The offset in the file at which section `j` starts: behind the header,
/// and behind the sections before it with their padding.
pub open spec fn section_offset(sections: Seq<SectionView>, j: int) -> int
    decreases j,
{
    if j <= 0 {
        12
    } else {
        section_offset(sections, j - 1) + 4 + sections[j - 1].length + padding(
            sections[j - 1].length,
        )
    }
}

/// The offset in the file at which the number of sections stands.
pub const SECTION_COUNT_OFFSET: usize = 6;

/// Where an image breaks a rule, and what is said of it. An image that
/// does not hold as many sections as it counts, or more than ten, breaks
/// the rule where its count stands. An image in which two sections have
/// the same type and number breaks the rule at the first section that
/// repeats an earlier one.
pub open spec fn violation(image: RcxBinView) -> Option<(Seq<char>, int)> {
    if !image.has_valid_count() {
        Some((invalid_count_message(), SECTION_COUNT_OFFSET as int))
    } else if image.has_repeated_section() {
        Some(
            (
                repeated_section_message(),
                section_offset(image.sections, first_repeat(image.sections, 0)),
            ),
        )
    } else {
        None
    }
}

/// What checking an image gives: nothing, or what is wrong with it.
pub open spec fn verified(image: RcxBinView) -> Result<(), Seq<char>> {
    match violation(image) {
        Some((said, offset)) => Err(said),
        None => Ok(()),
    }
}

/// What parsing and checking a file gives: the image, or what is said of
/// the file.
pub open spec fn parsed_image(bin: Seq<u8>) -> Result<RcxBinView, Seq<char>> {
    match image_of(bin) {
        Err(failure) => Err(failure_message(bin, failure)),
        Ok(image) => match violation(image) {
            Some((said, offset)) => Err(located_message(bin, said, offset)),
            None => Ok(image),
        },
    }
}

/// Whether a section has the type and number of an earlier one.
fn repeats_earlier(sections: &Vec<Section>, j: usize) -> (r: bool)
    requires
        j < sections@.len(),
    ensures
        r == exists|i: int|
            0 <= i < j && (#[trigger] sections@[i]).ty == sections@[j as int].ty
                && sections@[i].number == sections@[j as int].number,
{
    let mut i: usize = 0;
    while i < j
        invariant
            i <= j,
            j < sections@.len(),
            forall|k: int|
                0 <= k < i ==> !((#[trigger] sections@[k]).ty == sections@[j as int].ty
                    && sections@[k].number == sections@[j as int].number),
        decreases j - i,
    {
        if sections[i].ty == sections[j].ty && sections[i].number == sections[j].number {
            return true;
        }
        i += 1;
    }
    false
}

impl RcxBin {
    /// Reads an image from the bytes of a file and checks it. A file that
    /// is no image, or an image that breaks a rule, is refused with what
    /// is wrong, the offset at which it is wrong, and a hex dump that
    /// marks the offset.
    pub fn parse(bin: &[u8]) -> (r: Result<Self, Error>)
        ensures
            match r {
                Ok(image) => parsed_image(bin@) == Ok::<RcxBinView, Seq<char>>(image@),
                Err(e) => e matches Error::Parse(message) && parsed_image(bin@) == Err::<
                    RcxBinView,
                    Seq<char>,
                >(message@),
            },
            r matches Ok(image) ==> image@.well_formed(),
    {
        match self::parse(bin) {
            Err(failure) => Err(
                Error::Parse(describe(bin, failure.flaw.as_str(), failure.offset)),
            ),
            Ok(image) => {
                proof {
                    image_well_formed(bin@);
                }
                match image.violation() {
                    Some((said, offset)) => Err(Error::Parse(describe(bin, said, offset))),
                    None => Ok(image),
                }
            },
        }
    }

    /// Checks that the image holds as many sections as it counts, at most
    /// ten, and that no two of them have the same type and number.
    pub fn verify(&self) -> (r: Result<(), Error>)
        ensures
            match r {
                Ok(_) => verified(self@) == Ok::<(), Seq<char>>(()),
                Err(e) => e matches Error::Parse(message) && verified(self@) == Err::<
                    (),
                    Seq<char>,
                >(message@),
            },
    {
        match self.violation() {
            Some((said, _)) => Err(Error::Parse(String::from_str(said))),
            None => Ok(()),
        }
    }

    /// Finds where the image breaks a rule, if it does, and what is to be
    /// said of it.
    pub fn violation(&self) -> (r: Option<(&'static str, usize)>)
        ensures
            match r {
                Some((said, offset)) => violation(self@) == Some((said@, offset as int)),
                None => violation(self@) is None,
            },
    {
        let ghost views = section_views(self.sections@);
        if self.section_count as usize != self.sections.len() || self.sections.len()
            > MAX_SECTIONS {
            return Some(("Invalid number of chunks", SECTION_COUNT_OFFSET));
        }
        let mut offset: usize = 12;
        let mut j: usize = 0;
        while j < self.sections.len()
            invariant
                j <= self.sections@.len(),
                views == section_views(self.sections@),
                self@.has_valid_count(),
                offset == section_offset(views, j as int),
                offset <= 12 + j * 65542,
                first_repeat(views, 0) == first_repeat(views, j as int),
                forall|b: int| 0 <= b < j ==> !repeats(views, b),
            decreases self.sections@.len() - j,
        {
            assert(views[j as int] == self.sections@[j as int]@);
            if repeats_earlier(&self.sections, j) {
                proof {
                    let same = self.sections@[j as int];
                    let i = choose|i: int|
                        0 <= i < j && (#[trigger] self.sections@[i]).ty == same.ty
                            && self.sections@[i].number == same.number;
                    assert(views[i].ty == views[j as int].ty && views[i].number
                        == views[j as int].number);
                    assert(repeats(views, j as int));
                    assert(self@.sections == views);
                    assert(self@.has_repeated_section());
                }
                return Some(("Nonunique chunk numbers", offset));
            }
            proof {
                if repeats(views, j as int) {
                    let i = choose|i: int|
                        0 <= i < j && (#[trigger] views[i]).ty == views[j as int].ty
                            && views[i].number == views[j as int].number;
                    assert(self.sections@[i].ty == views[i].ty);
                }
            }
            let length = self.sections[j].length;
            offset = offset + 4 + length as usize + ((4 - length % 4) % 4) as usize;
            j += 1;
        }
        proof {
            assert(self@.sections == views);
            if self@.has_repeated_section() {
                let (a, b) = choose|a: int, b: int|
                    0 <= a < b < views.len() && (#[trigger] views[a]).ty == (
                    #[trigger] views[b]).ty && views[a].number == views[b].number;
                assert(repeats(views, b));
            }
        }
        None
    }
}

/// The sections that parse hold, each, as many data bytes as they state.
proof fn lemma_sections_sized(bin: Seq<u8>, pos: int, n: nat)
    requires
        sections_at(bin, pos, n) is Ok,
    ensures
        sections_at(bin, pos, n)->Ok_0.0.len() == n,
        forall|i: int|
            0 <= i < n ==> (#[trigger] sections_at(bin, pos, n)->Ok_0.0[i]).length == sections_at(
                bin,
                pos,
                n,
            )->Ok_0.0[i].data.len(),
    decreases n,
{
    if n > 0 {
        lemma_sections_sized(bin, pos, (n - 1) as nat);
    }
}

/// The symbols that parse have, each, a name that is a C string without its
/// closing NUL, of the length that the symbol states.
proof fn lemma_symbols_named(bin: Seq<u8>, pos: int, n: nat)
    requires
        symbols_at(bin, pos, n) is Ok,
    ensures
        symbols_at(bin, pos, n)->Ok_0.0.len() == n,
        forall|i: int|
            0 <= i < n ==> is_c_string((#[trigger] symbols_at(bin, pos, n)->Ok_0.0[i]).name.push(0))
                && symbols_at(bin, pos, n)->Ok_0.0[i].length == symbols_at(
                bin,
                pos,
                n,
            )->Ok_0.0[i].name.len() + 1,
    decreases n,
{
    if n > 0 {
        lemma_symbols_named(bin, pos, (n - 1) as nat);
        let (earlier, at) = symbols_at(bin, pos, (n - 1) as nat)->Ok_0;
        let length = u16_at(bin, at + 2)->Ok_0.0;
        let name = bin.subrange(at + 4, at + 4 + length);
        assert(name.drop_last().push(0) =~= name);
    }
}

/// Every image that parses is well formed: it holds as many sections and
/// symbols as its header counts, and the name of every symbol is a C
/// string, closed by its only NUL.
pub proof fn image_well_formed(bin: Seq<u8>)
    ensures
        image_of(bin) matches Ok(image) ==> image.well_formed(),
{
    if let Ok(header) = header_of(bin) {
        if let Ok((sections, at_symbols)) = sections_at(bin, 12, header.section_count as nat) {
            lemma_sections_sized(bin, 12, header.section_count as nat);
            if symbols_at(bin, at_symbols, header.symbol_count as nat) is Ok {
                lemma_symbols_named(bin, at_symbols, header.symbol_count as nat);
            }
        }
    }
}

impl SectionView {
    /// The section in two lines: its type and length, then its data in
    /// hexadecimal.
    #[verifier::opaque]
    pub open spec fn text(self) -> Seq<char> {
        "  "@ + self.ty.name() + " - "@ + decimal(self.length as nat) + " bytes\n"@ + "    "@
            + hex_string(self.data) + "\n"@
    }
}

impl SymbolView {
    /// The symbol in two lines: its type, index and length, then its name
    /// between double quotes.
    #[verifier::opaque]
    pub open spec fn text(self) -> Seq<char> {
        "  "@ + self.ty.name() + " at "@ + decimal(self.index as nat) + " - "@ + decimal(
            self.length as nat,
        ) + " bytes\n"@ + "    "@ + quoted(self.name) + "\n"@
    }
}

/// The texts of sections, an empty line after each.
pub open spec fn sections_text(sections: Seq<SectionView>) -> Seq<char>
    decreases sections.len(),
{
    if sections.len() == 0 {
        Seq::empty()
    } else {
        sections_text(sections.drop_last()) + sections.last().text() + "\n"@
    }
}

/// The texts of symbols, an empty line after each.
pub open spec fn symbols_text(symbols: Seq<SymbolView>) -> Seq<char>
    decreases symbols.len(),
{
    if symbols.len() == 0 {
        Seq::empty()
    } else {
        symbols_text(symbols.drop_last()) + symbols.last().text() + "\n"@
    }
}

impl RcxBinView {
    /// The image as text: the header line by line, then the sections, then
    /// the symbols.
    pub open spec fn text(self) -> Seq<char> {
        "Signature: "@ + utf8_lossy(self.signature) + "\n"@ + "Version: "@ + hex(
            self.version as nat,
        ) + "\n"@ + decimal(self.section_count as nat) + " sections, "@ + decimal(
            self.symbol_count as nat,
        ) + " symbols\n"@ + "Target: "@ + self.target_type.name() + "\n"@ + "Sections:\n"@
            + sections_text(self.sections) + "Symbols:\n"@ + symbols_text(self.symbols)
    }
}

impl Section {
    /// The section in two lines: its type and length, then its data in
    /// hexadecimal.
    pub fn to_string(&self) -> (r: String)
        ensures
            r@ == self@.text(),
    {
        reveal(SectionView::text);
        let mut out = String::from_str("  ");
        let ty = self.ty.to_string();
        out.append(ty.as_str());
        out.append(" - ");
        push_decimal(&mut out, self.length as usize);
        out.append(" bytes\n");
        out.append("    ");
        let data = hex_encode(self.data.as_slice());
        out.append(data.as_str());
        out.append("\n");
        assert(out@ =~= self@.text());
        out
    }
}

impl Symbol {
    /// The symbol in two lines: its type, index and length, then its name
    /// between double quotes.
    pub fn to_string(&self) -> (r: String)
        ensures
            r@ == self@.text(),
    {
        reveal(SymbolView::text);
        let mut out = String::from_str("  ");
        let ty = self.ty.to_string();
        out.append(ty.as_str());
        out.append(" at ");
        push_decimal(&mut out, self.index as usize);
        out.append(" - ");
        push_decimal(&mut out, self.length as usize);
        out.append(" bytes\n");
        out.append("    ");
        push_quoted(&mut out, self.name.as_slice());
        out.append("\n");
        assert(out@ =~= self@.text());
        out
    }
}

/// Renders the texts of sections, an empty line after each.
fn sections_string(sections: &Vec<Section>) -> (out: String)
    ensures
        out@ == sections_text(section_views(sections@)),
{
    let ghost views = section_views(sections@);
    let mut out = String::new();
    let mut i: usize = 0;
    assert(views.take(0) =~= Seq::<SectionView>::empty());
    while i < sections.len()
        invariant
            i <= sections@.len(),
            views == section_views(sections@),
            out@ == sections_text(views.take(i as int)),
        decreases sections@.len() - i,
    {
        proof {
            let next = views.take(i + 1);
            assert(next.drop_last() =~= views.take(i as int));
            assert(next.last() == sections@[i as int]@);
        }
        let text = sections[i].to_string();
        out.append(text.as_str());
        out.append("\n");
        i += 1;
    }
    assert(views.take(i as int) =~= views);
    out
}

/// Renders the texts of symbols, an empty line after each.
fn symbols_string(symbols: &Vec<Symbol>) -> (out: String)
    ensures
        out@ == symbols_text(symbol_views(symbols@)),
{
    let ghost views = symbol_views(symbols@);
    let mut out = String::new();
    let mut i: usize = 0;
    assert(views.take(0) =~= Seq::<SymbolView>::empty());
    while i < symbols.len()
        invariant
            i <= symbols@.len(),
            views == symbol_views(symbols@),
            out@ == symbols_text(views.take(i as int)),
        decreases symbols@.len() - i,
    {
        proof {
            let next = views.take(i + 1);
            assert(next.drop_last() =~= views.take(i as int));
            assert(next.last() == symbols@[i as int]@);
        }
        let text = symbols[i].to_string();
        out.append(text.as_str());
        out.append("\n");
        i += 1;
    }
    assert(views.take(i as int) =~= views);
    out
}

impl RcxBin {
    /// The image as text: the header line by line, then the sections, then
    /// the symbols.
    pub fn to_string(&self) -> (r: String)
        ensures
            r@ == self@.text(),
    {
        let mut out = String::from_str("Signature: ");
        let signature = lossy_text(self.signature.as_slice());
        out.append(signature.as_str());
        out.append("\n");
        out.append("Version: ");
        push_hex(&mut out, self.version as usize);
        out.append("\n");
        push_decimal(&mut out, self.section_count as usize);
        out.append(" sections, ");
        push_decimal(&mut out, self.symbol_count as usize);
        out.append(" symbols\n");
        out.append("Target: ");
        let target = self.target_type.to_string();
        out.append(target.as_str());
        out.append("\n");
        out.append("Sections:\n");
        let sections = sections_string(&self.sections);
        out.append(sections.as_str());
        out.append("Symbols:\n");
        let symbols = symbols_string(&self.symbols);
        out.append(symbols.as_str());
        out
    }
}

} // verus!
