//! How the parameters of an opcode are laid out in bytes, and how they are
//! shown in a listing.
//!
//! Parameters are one of a small closed set of types. Integers of more than
//! one byte are little-endian; signed integers are two's complement.

use vstd::prelude::*;
use crate::errors::Error;
use crate::text::{hex2, hex_list, hex_word_list, push_hex2, push_hex_list, push_hex_word_list};

verus! {

/// The byte that stands for a signed byte.
pub open spec fn i8_byte(v: i8) -> u8 {
    if v >= 0 {
        v as u8
    } else {
        (v + 256) as u8
    }
}

/// The signed byte that a byte stands for.
pub open spec fn i8_of(b: u8) -> i8 {
    if b < 128 {
        b as i8
    } else {
        (b - 256) as i8
    }
}

/// The two bytes of a word, low byte first.
pub open spec fn u16_bytes(v: u16) -> Seq<u8> {
    seq![(v % 256) as u8, (v / 256) as u8]
}

/// The word whose low byte is `lo` and whose high byte is `hi`.
pub open spec fn u16_of(lo: u8, hi: u8) -> u16 {
    (lo + 256 * hi) as u16
}

/// The word that stands for a signed word.
pub open spec fn i16_word(v: i16) -> u16 {
    if v >= 0 {
        v as u16
    } else {
        (v + 65536) as u16
    }
}

/// The signed word that a word stands for.
pub open spec fn i16_of(w: u16) -> i16 {
    if w < 32768 {
        w as i16
    } else {
        (w - 65536) as i16
    }
}

/// The words that `n` little-endian byte pairs from `at` stand for.
pub open spec fn words_at(bin: Seq<u8>, at: int, n: nat) -> Seq<u16> {
    Seq::new(n, |k: int| u16_of(bin[at + 2 * k], bin[at + 2 * k + 1]))
}

/// The bytes of a sequence of words, each word low byte first.
pub open spec fn words_bytes(words: Seq<u16>) -> Seq<u8> {
    Seq::new(
        2 * words.len(),
        |i: int|
            if i % 2 == 0 {
                (words[i / 2] % 256) as u8
            } else {
                (words[i / 2] / 256) as u8
            },
    )
}

/// The array that holds exactly the given items.
pub open spec fn array_of<T, const N: usize>(items: Seq<T>) -> [T; N] {
    choose|a: [T; N]| a@ == items
}

/// Whether `n` bytes can be read from `at`. Nothing can always be read.
pub open spec fn has_bytes(bin: Seq<u8>, at: int, n: nat) -> bool {
    n == 0 || (0 <= at && at + n <= bin.len())
}

/// The `n` bytes that stand at `at` and after it.
pub open spec fn bytes_at(bin: Seq<u8>, at: int, n: nat) -> Seq<u8> {
    Seq::new(n, |k: int| bin[at + k])
}

/// Where the program counter stands after a read that ran out of input: at
/// the end of the input, or where it was if that was beyond the end.
pub open spec fn stalled(bin: Seq<u8>, at: int) -> int {
    if at < bin.len() {
        bin.len() as int
    } else {
        at
    }
}

/// A parameter that can be written as bytes and shown in a listing.
pub trait WriteParam {
    /// The bytes of the parameter.
    spec fn param_bytes(&self) -> Seq<u8>;

    /// The parameter as a listing shows it: in hexadecimal, at least two
    /// digits, signed values by the bytes that stand for them.
    spec fn param_text(&self) -> Seq<char>;

    /// Appends the bytes of the parameter.
    fn write_param(&self, buf: &mut Vec<u8>)
        ensures
            final(buf)@ == old(buf)@ + self.param_bytes(),
    ;

    /// Appends the parameter as a listing shows it.
    fn show_param(&self, out: &mut String)
        ensures
            final(out)@ == old(out)@ + self.param_text(),
    ;
}

/// A parameter that can be read from the bytes of a program.
pub trait DisasmParam: WriteParam + Sized {
    /// The number of bytes the parameter takes.
    spec fn width() -> nat;

    /// The parameter that the bytes from `at` stand for.
    spec fn param_at(bin: Seq<u8>, at: int) -> Self;

    /// Reads the parameter at the program counter and moves the counter past
    /// it. If the input ends first, the counter stops at the end.
    fn disasm_param(bin: &[u8], pc: &mut usize) -> (r: Result<Self, Error>)
        ensures
            match r {
                Ok(v) => {
                    &&& has_bytes(bin@, *old(pc) as int, Self::width())
                    &&& v == Self::param_at(bin@, *old(pc) as int)
                    &&& *final(pc) == *old(pc) + Self::width()
                },
                Err(e) => {
                    &&& !has_bytes(bin@, *old(pc) as int, Self::width())
                    &&& e == Error::InsufficientData
                    &&& *final(pc) == stalled(bin@, *old(pc) as int)
                },
            },
    ;

    /// Reading back the bytes of a parameter gives that parameter.
    proof fn lemma_read_back(self, bin: Seq<u8>, at: int)
        requires
            bytes_at(bin, at, Self::width()) == self.param_bytes(),
        ensures
            Self::param_at(bin, at) == self,
    ;

    /// A parameter is written in as many bytes as it is read from.
    proof fn lemma_width(self)
        ensures
            self.param_bytes().len() == Self::width(),
    ;
}

/// Reading back a parameter from the bytes of a record: where the bytes
/// from `at` are the encoding `whole`, and the bytes of a parameter stand in
/// it at `off`, the parameter is read from `at + off`.
pub proof fn lemma_read_part<P: DisasmParam>(
    param: P,
    bin: Seq<u8>,
    at: int,
    whole: Seq<u8>,
    off: int,
)
    requires
        bytes_at(bin, at, whole.len()) == whole,
        0 <= off,
        off + P::width() <= whole.len(),
        whole.subrange(off, off + P::width()) == param.param_bytes(),
    ensures
        P::param_at(bin, at + off) == param,
{
    assert(bytes_at(bin, at + off, P::width()) =~= param.param_bytes()) by {
        assert forall|k: int| 0 <= k < P::width() implies bytes_at(bin, at + off, P::width())[k]
            == param.param_bytes()[k] by {
            assert(bytes_at(bin, at, whole.len())[off + k] == whole[off + k]);
            assert(whole.subrange(off, off + P::width())[k] == whole[off + k]);
        }
    }
    param.lemma_read_back(bin, at + off);
}

/// Reads the byte at the program counter and moves the counter past it.
pub fn read_byte(bin: &[u8], pc: &mut usize) -> (r: Result<u8, Error>)
    ensures
        match r {
            Ok(b) => *old(pc) < bin@.len() && b == bin@[*old(pc) as int] && *final(pc) == *old(pc)
                + 1,
            Err(e) => *old(pc) >= bin@.len() && e == Error::InsufficientData && *final(pc)
                == *old(pc),
        },
{
    if *pc < bin.len() {
        let byte = bin[*pc];
        *pc += 1;
        Ok(byte)
    } else {
        Err(Error::InsufficientData)
    }
}

/// The signed byte that a byte stands for.
pub fn i8_from_byte(b: u8) -> (r: i8)
    ensures
        r == i8_of(b),
{
    if b < 128 {
        b as i8
    } else {
        (b as i16 - 256) as i8
    }
}

/// The byte that stands for a signed byte.
pub fn i8_to_byte(v: i8) -> (r: u8)
    ensures
        r == i8_byte(v),
{
    if v >= 0 {
        v as u8
    } else {
        (v as i16 + 256) as u8
    }
}

/// The signed word that a word stands for.
pub fn i16_from_word(w: u16) -> (r: i16)
    ensures
        r == i16_of(w),
{
    if w < 32768 {
        w as i16
    } else {
        (w as i32 - 65536) as i16
    }
}

/// The word that stands for a signed word.
pub fn i16_to_word(v: i16) -> (r: u16)
    ensures
        r == i16_word(v),
{
    if v >= 0 {
        v as u16
    } else {
        (v as i32 + 65536) as u16
    }
}

/// The word whose low byte is `lo` and whose high byte is `hi`.
pub fn u16_from_bytes(lo: u8, hi: u8) -> (r: u16)
    ensures
        r == u16_of(lo, hi),
{
    lo as u16 + 256 * (hi as u16)
}

impl WriteParam for u8 {
    open spec fn param_bytes(&self) -> Seq<u8> {
        seq![*self]
    }

    open spec fn param_text(&self) -> Seq<char> {
        hex2(*self as nat)
    }

    fn write_param(&self, buf: &mut Vec<u8>) {
        buf.push(*self);
        assert(buf@ =~= old(buf)@ + self.param_bytes());
    }

    fn show_param(&self, out: &mut String) {
        push_hex2(out, *self as usize);
    }
}

impl DisasmParam for u8 {
    open spec fn width() -> nat {
        1
    }

    open spec fn param_at(bin: Seq<u8>, at: int) -> Self {
        bin[at]
    }

    fn disasm_param(bin: &[u8], pc: &mut usize) -> (r: Result<Self, Error>) {
        read_byte(bin, pc)
    }

    proof fn lemma_read_back(self, bin: Seq<u8>, at: int) {
        assert(bytes_at(bin, at, 1)[0] == bin[at]);
    }

    proof fn lemma_width(self) {
    }
}

impl WriteParam for i8 {
    open spec fn param_bytes(&self) -> Seq<u8> {
        seq![i8_byte(*self)]
    }

    open spec fn param_text(&self) -> Seq<char> {
        hex2(i8_byte(*self) as nat)
    }

    fn write_param(&self, buf: &mut Vec<u8>) {
        buf.push(i8_to_byte(*self));
        assert(buf@ =~= old(buf)@ + self.param_bytes());
    }

    fn show_param(&self, out: &mut String) {
        push_hex2(out, i8_to_byte(*self) as usize);
    }
}

impl DisasmParam for i8 {
    open spec fn width() -> nat {
        1
    }

    open spec fn param_at(bin: Seq<u8>, at: int) -> Self {
        i8_of(bin[at])
    }

    fn disasm_param(bin: &[u8], pc: &mut usize) -> (r: Result<Self, Error>) {
        let byte = read_byte(bin, pc)?;
        Ok(i8_from_byte(byte))
    }

    proof fn lemma_read_back(self, bin: Seq<u8>, at: int) {
        assert(bytes_at(bin, at, 1)[0] == bin[at]);
    }

    proof fn lemma_width(self) {
    }
}

impl WriteParam for u16 {
    open spec fn param_bytes(&self) -> Seq<u8> {
        u16_bytes(*self)
    }

    open spec fn param_text(&self) -> Seq<char> {
        hex2(*self as nat)
    }

    fn write_param(&self, buf: &mut Vec<u8>) {
        buf.push((*self % 256) as u8);
        buf.push((*self / 256) as u8);
        assert(buf@ =~= old(buf)@ + self.param_bytes());
    }

    fn show_param(&self, out: &mut String) {
        push_hex2(out, *self as usize);
    }
}

impl DisasmParam for u16 {
    open spec fn width() -> nat {
        2
    }

    open spec fn param_at(bin: Seq<u8>, at: int) -> Self {
        u16_of(bin[at], bin[at + 1])
    }

    fn disasm_param(bin: &[u8], pc: &mut usize) -> (r: Result<Self, Error>) {
        let lo = read_byte(bin, pc)?;
        let hi = read_byte(bin, pc)?;
        Ok(u16_from_bytes(lo, hi))
    }

    proof fn lemma_read_back(self, bin: Seq<u8>, at: int) {
        assert(bytes_at(bin, at, 2)[0] == bin[at]);
        assert(bytes_at(bin, at, 2)[1] == bin[at + 1]);
    }

    proof fn lemma_width(self) {
    }
}

impl WriteParam for i16 {
    open spec fn param_bytes(&self) -> Seq<u8> {
        u16_bytes(i16_word(*self))
    }

    open spec fn param_text(&self) -> Seq<char> {
        hex2(i16_word(*self) as nat)
    }

    fn write_param(&self, buf: &mut Vec<u8>) {
        let word = i16_to_word(*self);
        buf.push((word % 256) as u8);
        buf.push((word / 256) as u8);
        assert(buf@ =~= old(buf)@ + self.param_bytes());
    }

    fn show_param(&self, out: &mut String) {
        push_hex2(out, i16_to_word(*self) as usize);
    }
}

impl DisasmParam for i16 {
    open spec fn width() -> nat {
        2
    }

    open spec fn param_at(bin: Seq<u8>, at: int) -> Self {
        i16_of(u16_of(bin[at], bin[at + 1]))
    }

    fn disasm_param(bin: &[u8], pc: &mut usize) -> (r: Result<Self, Error>) {
        let lo = read_byte(bin, pc)?;
        let hi = read_byte(bin, pc)?;
        Ok(i16_from_word(u16_from_bytes(lo, hi)))
    }

    proof fn lemma_read_back(self, bin: Seq<u8>, at: int) {
        assert(bytes_at(bin, at, 2)[0] == bin[at]);
        assert(bytes_at(bin, at, 2)[1] == bin[at + 1]);
    }

    proof fn lemma_width(self) {
    }
}

impl<const N: usize> WriteParam for [u8; N] {
    open spec fn param_bytes(&self) -> Seq<u8> {
        self@
    }

    open spec fn param_text(&self) -> Seq<char> {
        hex_list(self@)
    }

    fn write_param(&self, buf: &mut Vec<u8>) {
        let mut i: usize = 0;
        while i < N
            invariant
                i <= N,
                buf@ == old(buf)@ + self@.take(i as int),
            decreases N - i,
        {
            buf.push(self[i]);
            i += 1;
            assert(buf@ =~= old(buf)@ + self@.take(i as int));
        }
        assert(self@.take(N as int) =~= self@);
    }

    fn show_param(&self, out: &mut String) {
        push_hex_list(out, self.as_slice());
    }
}

impl<const N: usize> DisasmParam for [u8; N] {
    open spec fn width() -> nat {
        N as nat
    }

    open spec fn param_at(bin: Seq<u8>, at: int) -> Self {
        array_of(bytes_at(bin, at, N as nat))
    }

    fn disasm_param(bin: &[u8], pc: &mut usize) -> (r: Result<Self, Error>) {
        let mut out: [u8; N] = [0u8; N];
        let mut i: usize = 0;
        while i < N
            invariant
                i <= N,
                *pc == *old(pc) + i,
                i > 0 ==> *pc <= bin@.len(),
                forall|k: int| 0 <= k < i ==> out@[k] == bin@[*old(pc) + k],
            decreases N - i,
        {
            out[i] = read_byte(bin, pc)?;
            i += 1;
        }
        assert(out@ =~= bytes_at(bin@, *old(pc) as int, N as nat));
        assert(out =~= Self::param_at(bin@, *old(pc) as int));
        Ok(out)
    }

    proof fn lemma_read_back(self, bin: Seq<u8>, at: int) {
        assert(Self::param_at(bin, at) =~= self);
    }

    proof fn lemma_width(self) {
    }
}

impl<const N: usize> WriteParam for [u16; N] {
    open spec fn param_bytes(&self) -> Seq<u8> {
        words_bytes(self@)
    }

    open spec fn param_text(&self) -> Seq<char> {
        hex_word_list(self@)
    }

    fn write_param(&self, buf: &mut Vec<u8>) {
        let mut i: usize = 0;
        assert(buf@ =~= old(buf)@ + words_bytes(self@.take(0)));
        while i < N
            invariant
                i <= N,
                buf@ == old(buf)@ + words_bytes(self@.take(i as int)),
            decreases N - i,
        {
            let word = self[i];
            buf.push((word % 256) as u8);
            buf.push((word / 256) as u8);
            i += 1;
            assert(buf@ =~= old(buf)@ + words_bytes(self@.take(i as int)));
        }
        assert(self@.take(N as int) =~= self@);
    }

    fn show_param(&self, out: &mut String) {
        push_hex_word_list(out, self.as_slice());
    }
}

impl<const N: usize> DisasmParam for [u16; N] {
    open spec fn width() -> nat {
        2 * (N as nat)
    }

    open spec fn param_at(bin: Seq<u8>, at: int) -> Self {
        array_of(words_at(bin, at, N as nat))
    }

    fn disasm_param(bin: &[u8], pc: &mut usize) -> (r: Result<Self, Error>) {
        let mut out: [u16; N] = [0u16; N];
        let mut i: usize = 0;
        while i < N
            invariant
                i <= N,
                *pc == *old(pc) + 2 * i,
                i > 0 ==> *pc <= bin@.len(),
                forall|k: int|
                    0 <= k < i ==> out@[k] == u16_of(
                        bin@[*old(pc) + 2 * k],
                        bin@[*old(pc) + 2 * k + 1],
                    ),
            decreases N - i,
        {
            out[i] = u16::disasm_param(bin, pc)?;
            i += 1;
        }
        assert(out@ =~= words_at(bin@, *old(pc) as int, N as nat));
        assert(out =~= Self::param_at(bin@, *old(pc) as int));
        Ok(out)
    }

    proof fn lemma_read_back(self, bin: Seq<u8>, at: int) {
        let read = words_at(bin, at, N as nat);
        assert forall|k: int| 0 <= k < N implies read[k] == self@[k] by {
            assert(bytes_at(bin, at, 2 * (N as nat))[2 * k] == bin[at + 2 * k]);
            assert(bytes_at(bin, at, 2 * (N as nat))[2 * k + 1] == bin[at + 2 * k + 1]);
            assert(words_bytes(self@)[2 * k] == (self@[k] % 256) as u8);
            assert(words_bytes(self@)[2 * k + 1] == (self@[k] / 256) as u8);
        }
        assert(read =~= self@);
        assert(Self::param_at(bin, at) =~= self);
    }

    proof fn lemma_width(self) {
    }
}

impl WriteParam for Vec<u8> {
    open spec fn param_bytes(&self) -> Seq<u8> {
        self@
    }

    open spec fn param_text(&self) -> Seq<char> {
        hex_list(self@)
    }

    fn write_param(&self, buf: &mut Vec<u8>) {
        let mut i: usize = 0;
        while i < self.len()
            invariant
                i <= self.len(),
                buf@ == old(buf)@ + self@.take(i as int),
            decreases self.len() - i,
        {
            buf.push(self[i]);
            i += 1;
            assert(buf@ =~= old(buf)@ + self@.take(i as int));
        }
        assert(self@.take(self.len() as int) =~= self@);
    }

    fn show_param(&self, out: &mut String) {
        push_hex_list(out, self.as_slice());
    }
}

} // verus!
