//! Rendering of numbers and byte strings as text.
//!
//! Every listing the library prints is built from these few renderers, so
//! each comes with a specification of the exact characters it produces.
//! The way back, from a string to its characters, is here as well.

use vstd::prelude::*;

verus! {

/// `String::push` appends exactly the given character to the string.
pub assume_specification[ String::push ](s: &mut String, ch: char)
    ensures
        final(s)@ == old(s)@.push(ch),
;

/// The text that `String::from_utf8_lossy` makes of bytes: the text they
/// encode in UTF-8, with a replacement character for what encodes none.
pub uninterp spec fn utf8_lossy(bytes: Seq<u8>) -> Seq<char>;

/// Calls `String::from_utf8_lossy`, which decodes bytes as UTF-8 and puts
/// U+FFFD in place of every sequence that is not valid. The result depends
/// on the bytes alone; the contract gives it its name and says no more.
#[verifier::external_body]
pub(crate) fn lossy_text(bytes: &[u8]) -> (r: String)
    ensures
        r@ == utf8_lossy(bytes@),
{
    String::from_utf8_lossy(bytes).into_owned()
}

/// Calls `hex::encode`, which encodes every byte as two lowercase
/// hexadecimal digits, in order, with nothing between them.
#[verifier::external_body]
pub(crate) fn hex_encode(data: &[u8]) -> (r: String)
    ensures
        r@ == hex_string(data@),
{
    hex::encode(data)
}

/// The lowercase hexadecimal digit for a value below sixteen.
pub open spec fn hex_digit(n: int) -> char {
    if n == 0 {
        '0'
    } else if n == 1 {
        '1'
    } else if n == 2 {
        '2'
    } else if n == 3 {
        '3'
    } else if n == 4 {
        '4'
    } else if n == 5 {
        '5'
    } else if n == 6 {
        '6'
    } else if n == 7 {
        '7'
    } else if n == 8 {
        '8'
    } else if n == 9 {
        '9'
    } else if n == 10 {
        'a'
    } else if n == 11 {
        'b'
    } else if n == 12 {
        'c'
    } else if n == 13 {
        'd'
    } else if n == 14 {
        'e'
    } else {
        'f'
    }
}

/// A number in lowercase hexadecimal, without leading zeros.
pub open spec fn hex(n: nat) -> Seq<char>
    decreases n,
{
    if n < 16 {
        seq![hex_digit(n as int)]
    } else {
        hex(n / 16).push(hex_digit((n % 16) as int))
    }
}

/// A number in lowercase hexadecimal, zero-padded to at least two digits.
pub open spec fn hex2(n: nat) -> Seq<char> {
    if n < 16 {
        seq!['0', hex_digit(n as int)]
    } else {
        hex(n)
    }
}

/// A number in decimal, without leading zeros.
pub open spec fn decimal(n: nat) -> Seq<char>
    decreases n,
{
    if n < 10 {
        seq![hex_digit(n as int)]
    } else {
        decimal(n / 10).push(hex_digit((n % 10) as int))
    }
}

/// The bytes of a sequence in hexadecimal, two digits each, nothing between.
pub open spec fn hex_string(bytes: Seq<u8>) -> Seq<char>
    decreases bytes.len(),
{
    if bytes.len() == 0 {
        Seq::empty()
    } else {
        hex_string(bytes.drop_last()) + hex2(bytes.last() as nat)
    }
}

/// The bytes of a sequence as a bracketed list of two-digit hexadecimal
/// numbers separated by a comma and a space, such as `[01, 0b]`.
pub open spec fn hex_list(bytes: Seq<u8>) -> Seq<char> {
    seq!['['] + hex_list_items(bytes) + seq![']']
}

/// The inside of [`hex_list`]: the items and their separators.
pub open spec fn hex_list_items(bytes: Seq<u8>) -> Seq<char>
    decreases bytes.len(),
{
    if bytes.len() == 0 {
        Seq::empty()
    } else if bytes.len() == 1 {
        hex2(bytes[0] as nat)
    } else {
        hex_list_items(bytes.drop_last()) + seq![',', ' '] + hex2(bytes.last() as nat)
    }
}

/// The words of a sequence as a bracketed list of hexadecimal numbers of at
/// least two digits, separated by a comma and a space, such as `[300, 0b]`.
pub open spec fn hex_word_list(words: Seq<u16>) -> Seq<char> {
    seq!['['] + hex_word_list_items(words) + seq![']']
}

/// The inside of [`hex_word_list`]: the items and their separators.
pub open spec fn hex_word_list_items(words: Seq<u16>) -> Seq<char>
    decreases words.len(),
{
    if words.len() == 0 {
        Seq::empty()
    } else if words.len() == 1 {
        hex2(words[0] as nat)
    } else {
        hex_word_list_items(words.drop_last()) + seq![',', ' '] + hex2(words.last() as nat)
    }
}

/// How one byte of a C string is shown between double quotes: the usual
/// backslash escapes, printable ASCII as it is, anything else as `\xNN`.
pub open spec fn escaped_byte(b: u8) -> Seq<char> {
    if b == 0x09 {
        seq!['\\', 't']
    } else if b == 0x0d {
        seq!['\\', 'r']
    } else if b == 0x0a {
        seq!['\\', 'n']
    } else if b == 0x27 {
        seq!['\\', '\'']
    } else if b == 0x22 {
        seq!['\\', '"']
    } else if b == 0x5c {
        seq!['\\', '\\']
    } else if 0x20 <= b <= 0x7e {
        seq![b as char]
    } else {
        seq!['\\', 'x'] + hex2(b as nat)
    }
}

/// The escaped form of every byte of a sequence, in order.
pub open spec fn escaped(bytes: Seq<u8>) -> Seq<char>
    decreases bytes.len(),
{
    if bytes.len() == 0 {
        Seq::empty()
    } else {
        escaped(bytes.drop_last()) + escaped_byte(bytes.last())
    }
}

/// A byte string between double quotes, escaped.
pub open spec fn quoted(bytes: Seq<u8>) -> Seq<char> {
    seq!['"'] + escaped(bytes) + seq!['"']
}

/// The same character repeated.
pub open spec fn repeated(c: char, n: nat) -> Seq<char> {
    Seq::new(n, |i: int| c)
}

/// The lowercase hexadecimal digit for a value below sixteen.
pub fn hex_digit_char(n: u8) -> (c: char)
    requires
        n < 16,
    ensures
        c == hex_digit(n as int),
{
    if n == 0 {
        '0'
    } else if n == 1 {
        '1'
    } else if n == 2 {
        '2'
    } else if n == 3 {
        '3'
    } else if n == 4 {
        '4'
    } else if n == 5 {
        '5'
    } else if n == 6 {
        '6'
    } else if n == 7 {
        '7'
    } else if n == 8 {
        '8'
    } else if n == 9 {
        '9'
    } else if n == 10 {
        'a'
    } else if n == 11 {
        'b'
    } else if n == 12 {
        'c'
    } else if n == 13 {
        'd'
    } else if n == 14 {
        'e'
    } else {
        'f'
    }
}

/// Appends a number in hexadecimal without leading zeros.
pub fn push_hex(out: &mut String, v: usize)
    ensures
        final(out)@ == old(out)@ + hex(v as nat),
    decreases v,
{
    if v >= 16 {
        push_hex(out, v / 16);
    }
    out.push(hex_digit_char((v % 16) as u8));
    assert(final(out)@ =~= old(out)@ + hex(v as nat));
}

/// Appends a number in hexadecimal, zero-padded to at least two digits.
pub fn push_hex2(out: &mut String, v: usize)
    ensures
        final(out)@ == old(out)@ + hex2(v as nat),
{
    if v < 16 {
        out.push('0');
    }
    push_hex(out, v);
    assert(final(out)@ =~= old(out)@ + hex2(v as nat));
}

/// Appends a number in decimal.
pub fn push_decimal(out: &mut String, v: usize)
    ensures
        final(out)@ == old(out)@ + decimal(v as nat),
    decreases v,
{
    if v >= 10 {
        push_decimal(out, v / 10);
    }
    out.push(hex_digit_char((v % 10) as u8));
    assert(final(out)@ =~= old(out)@ + decimal(v as nat));
}

/// Appends the bytes as a bracketed, comma-separated list.
pub fn push_hex_list(out: &mut String, bytes: &[u8])
    ensures
        final(out)@ == old(out)@ + hex_list(bytes@),
{
    out.push('[');
    let ghost opened = out@;
    let mut i: usize = 0;
    assert(bytes@.take(0) =~= Seq::<u8>::empty());
    assert(out@ =~= opened + hex_list_items(bytes@.take(0)));
    while i < bytes.len()
        invariant
            i <= bytes.len(),
            out@ == opened + hex_list_items(bytes@.take(i as int)),
        decreases bytes.len() - i,
    {
        proof {
            let next = bytes@.take(i + 1);
            assert(next.drop_last() =~= bytes@.take(i as int));
            assert(next.last() == bytes@[i as int]);
            assert(next[0] == bytes@[0]);
        }
        if i > 0 {
            out.push(',');
            out.push(' ');
        }
        push_hex2(out, bytes[i] as usize);
        i += 1;
        assert(out@ =~= opened + hex_list_items(bytes@.take(i as int)));
    }
    assert(bytes@.take(i as int) =~= bytes@);
    out.push(']');
    assert(out@ =~= old(out)@ + hex_list(bytes@));
}

/// Appends the words as a bracketed, comma-separated list.
pub fn push_hex_word_list(out: &mut String, words: &[u16])
    ensures
        final(out)@ == old(out)@ + hex_word_list(words@),
{
    out.push('[');
    let ghost opened = out@;
    let mut i: usize = 0;
    assert(words@.take(0) =~= Seq::<u16>::empty());
    assert(out@ =~= opened + hex_word_list_items(words@.take(0)));
    while i < words.len()
        invariant
            i <= words.len(),
            out@ == opened + hex_word_list_items(words@.take(i as int)),
        decreases words.len() - i,
    {
        proof {
            let next = words@.take(i + 1);
            assert(next.drop_last() =~= words@.take(i as int));
            assert(next.last() == words@[i as int]);
            assert(next[0] == words@[0]);
        }
        if i > 0 {
            out.push(',');
            out.push(' ');
        }
        push_hex2(out, words[i] as usize);
        i += 1;
        assert(out@ =~= opened + hex_word_list_items(words@.take(i as int)));
    }
    assert(words@.take(i as int) =~= words@);
    out.push(']');
    assert(out@ =~= old(out)@ + hex_word_list(words@));
}

/// Appends one byte of a C string in its escaped form.
pub fn push_escaped_byte(out: &mut String, b: u8)
    ensures
        final(out)@ == old(out)@ + escaped_byte(b),
{
    if b == 0x09 {
        out.push('\\');
        out.push('t');
    } else if b == 0x0d {
        out.push('\\');
        out.push('r');
    } else if b == 0x0a {
        out.push('\\');
        out.push('n');
    } else if b == 0x27 {
        out.push('\\');
        out.push('\'');
    } else if b == 0x22 {
        out.push('\\');
        out.push('"');
    } else if b == 0x5c {
        out.push('\\');
        out.push('\\');
    } else if 0x20 <= b && b <= 0x7e {
        out.push(b as char);
    } else {
        out.push('\\');
        out.push('x');
        push_hex2(out, b as usize);
    }
    assert(final(out)@ =~= old(out)@ + escaped_byte(b));
}

/// Appends a byte string between double quotes, escaped.
pub fn push_quoted(out: &mut String, bytes: &[u8])
    ensures
        final(out)@ == old(out)@ + quoted(bytes@),
{
    out.push('"');
    let ghost opened = out@;
    let mut i: usize = 0;
    assert(bytes@.take(0) =~= Seq::<u8>::empty());
    assert(out@ =~= opened + escaped(bytes@.take(0)));
    while i < bytes.len()
        invariant
            i <= bytes.len(),
            out@ == opened + escaped(bytes@.take(i as int)),
        decreases bytes.len() - i,
    {
        proof {
            let next = bytes@.take(i + 1);
            assert(next.drop_last() =~= bytes@.take(i as int));
            assert(next.last() == bytes@[i as int]);
        }
        push_escaped_byte(out, bytes[i]);
        i += 1;
        assert(out@ =~= opened + escaped(bytes@.take(i as int)));
    }
    assert(bytes@.take(i as int) =~= bytes@);
    out.push('"');
    assert(out@ =~= old(out)@ + quoted(bytes@));
}

/// Appends the same character a number of times.
pub fn push_repeated(out: &mut String, c: char, n: usize)
    ensures
        final(out)@ == old(out)@ + repeated(c, n as nat),
{
    let mut i: usize = 0;
    assert(out@ =~= old(out)@ + repeated(c, 0));
    while i < n
        invariant
            i <= n,
            out@ == old(out)@ + repeated(c, i as nat),
        decreases n - i,
    {
        out.push(c);
        i += 1;
        assert(out@ =~= old(out)@ + repeated(c, i as nat));
    }
}

/// The characters of a string.
pub fn chars_of(text: &str) -> (chars: Vec<char>)
    ensures
        chars@ == text@,
{
    let mut chars: Vec<char> = Vec::new();
    for c in it: text.chars()
        invariant
            chars@ == it.seq().take(it.index() as int),
            it.seq() == text@,
    {
        chars.push(c);
        assert(chars@ =~= it.seq().take(it.index() + 1));
    }
    assert(chars@ =~= text@);
    chars
}

/// Whether a character is white space, as Unicode defines it.
pub open spec fn is_space_char(c: char) -> bool {
    let n = c as u32;
    (0x09 <= n <= 0x0d) || n == 0x20 || n == 0x85 || n == 0xa0 || n == 0x1680 || (0x2000 <= n
        <= 0x200a) || n == 0x2028 || n == 0x2029 || n == 0x202f || n == 0x205f || n == 0x3000
}

/// Whether a character is white space, as Unicode defines it.
pub fn is_space(c: char) -> (r: bool)
    ensures
        r == is_space_char(c),
{
    let n = c as u32;
    (0x09 <= n && n <= 0x0d) || n == 0x20 || n == 0x85 || n == 0xa0 || n == 0x1680 || (0x2000 <= n
        && n <= 0x200a) || n == 0x2028 || n == 0x2029 || n == 0x202f || n == 0x205f || n
        == 0x3000
}

/// The value of a character as a digit of a radix, if it is one.
pub open spec fn digit_of(c: char, radix: nat) -> Option<nat> {
    let value = if '0' <= c <= '9' {
        Some((c as u32 - '0' as u32) as nat)
    } else if 'a' <= c <= 'f' {
        Some((c as u32 - 'a' as u32 + 10) as nat)
    } else if 'A' <= c <= 'F' {
        Some((c as u32 - 'A' as u32 + 10) as nat)
    } else {
        None
    };
    match value {
        Some(v) => if v < radix {
            Some(v)
        } else {
            None
        },
        None => None,
    }
}

/// The value of the first `n` characters from `from` as digits of a radix.
pub open spec fn digits_value(word: Seq<char>, from: int, n: nat, radix: nat) -> nat
    decreases n,
{
    if n == 0 {
        0
    } else {
        digits_value(word, from, (n - 1) as nat, radix) * radix + match digit_of(
            word[from + n - 1],
            radix,
        ) {
            Some(v) => v,
            None => 0,
        }
    }
}

/// The value of a character as a digit of a radix, if it is one.
pub fn digit_value(c: char, radix: u32) -> (r: Option<u32>)
    requires
        radix <= 16,
    ensures
        match r {
            Some(v) => digit_of(c, radix as nat) == Some(v as nat) && v < radix,
            None => digit_of(c, radix as nat) is None,
        },
{
    let value = if '0' <= c && c <= '9' {
        c as u32 - '0' as u32
    } else if 'a' <= c && c <= 'f' {
        c as u32 - 'a' as u32 + 10
    } else if 'A' <= c && c <= 'F' {
        c as u32 - 'A' as u32 + 10
    } else {
        return None;
    };
    if value < radix {
        Some(value)
    } else {
        None
    }
}

/// A number in decimal, with a minus sign if it is negative.
pub open spec fn signed_decimal(value: int) -> Seq<char> {
    if value < 0 {
        seq!['-'] + decimal((-value) as nat)
    } else {
        decimal(value as nat)
    }
}

/// Appends a number in decimal, with a minus sign if it is negative.
pub fn push_signed_decimal(out: &mut String, value: i32)
    ensures
        final(out)@ == old(out)@ + signed_decimal(value as int),
{
    if value < 0 {
        out.push('-');
        push_decimal(out, (-(value as i64)) as usize);
    } else {
        push_decimal(out, value as usize);
    }
    assert(final(out)@ =~= old(out)@ + signed_decimal(value as int));
}

} // verus!
