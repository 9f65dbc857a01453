//! The parser of assembler source.
//!
//! A line is one of three things, told apart by three patterns. A label is
//! a name directly followed by a colon. A jump is the word `jmp` and a
//! name. An instruction is a name followed by any number of numbers, each
//! decimal, or hexadecimal behind `0x`. Words are set apart by white space,
//! which may also lead a jump or an instruction, but not trail it.
//!
//! The patterns decide what a line is; what the line then holds is taken
//! from its words.

use vstd::prelude::*;
use vstd::slice::slice_subrange;
use vstd::string::StrSliceExecFns;
use regex::Regex;
use crate::assembly::ast::{LabelOrOpcode, LineView};
use crate::text::{chars_of, digit_of, digit_value, digits_value, is_space, is_space_char};

verus! {

/// The pattern of a label.
pub const LABEL_PATTERN: &'static str = "^[a-zA-Z_][a-zA-Z0-9_]*:$";

/// The pattern of a jump.
pub const JMP_PATTERN: &'static str = "^\\s*jmp\\s+[a-zA-Z_][a-zA-Z0-9_]*$";

/// The pattern of an instruction.
pub const OPCODE_PATTERN: &'static str =
    "^\\s*[a-zA-Z_][a-zA-Z0-9_]*(\\s+((0x[0-9a-fA-F]+)|([0-9]+)))*$";

/// What is said of a line that is no label, no jump and no instruction.
pub open spec fn invalid_line_message() -> &'static str {
    "Invalid line"
}

/// Whether a pattern, read as a regular expression of the regex crate,
/// matches somewhere in a text; nothing where the pattern is no regular
/// expression, or one that is too big to build.
pub uninterp spec fn regex_match(pattern: Seq<char>, text: Seq<char>) -> Option<bool>;

/// Calls `Regex::new` of the regex crate on the pattern and `Regex::is_match`
/// on the text. `Regex::new` fails on a pattern that is invalid or too big;
/// `is_match` says whether the regular expression matches anywhere in the
/// text. Both depend on their arguments alone. The contract gives the
/// result its name and says no more of it.
#[verifier::external_body]
fn is_match(pattern: &str, text: &str) -> (r: Option<bool>)
    ensures
        r == regex_match(pattern@, text@),
{
    match Regex::new(pattern) {
        Ok(regex) => Some(regex.is_match(text)),
        Err(_) => None,
    }
}

/// Whether a pattern is a regular expression that matches in a text.
pub open spec fn matches(pattern: Seq<char>, text: Seq<char>) -> bool {
    regex_match(pattern, text) == Some(true)
}

/// Whether all characters from `from` on are digits of a radix, and there
/// is at least one.
pub open spec fn is_digits(word: Seq<char>, from: int, radix: nat) -> bool {
    &&& from < word.len()
    &&& forall|i: int| from <= i < word.len() ==> digit_of(#[trigger] word[i], radix) is Some
}

/// Whether a word is a hexadecimal number: `0x` and digits.
pub open spec fn is_hex_number(word: Seq<char>) -> bool {
    word.len() >= 2 && word[0] == '0' && word[1] == 'x' && is_digits(word, 2, 16)
}

/// The byte that a word stands for, if it is a number of at most 255.
pub open spec fn number_of(word: Seq<char>) -> Option<u8> {
    if is_hex_number(word) {
        let value = digits_value(word, 2, (word.len() - 2) as nat, 16);
        if value <= 255 {
            Some(value as u8)
        } else {
            None
        }
    } else if is_digits(word, 0, 10) {
        let value = digits_value(word, 0, word.len(), 10);
        if value <= 255 {
            Some(value as u8)
        } else {
            None
        }
    } else {
        None
    }
}

/// The first position at or after `from` that holds no white space, or the
/// length of the line.
pub open spec fn skip_space(line: Seq<char>, from: int) -> int
    decreases line.len() - from,
{
    if 0 <= from < line.len() && is_space_char(line[from]) {
        skip_space(line, from + 1)
    } else {
        from
    }
}

/// The first position at or after `from` that holds white space, or the
/// length of the line.
pub open spec fn skip_word(line: Seq<char>, from: int) -> int
    decreases line.len() - from,
{
    if 0 <= from < line.len() && !is_space_char(line[from]) {
        skip_word(line, from + 1)
    } else {
        from
    }
}

/// The words of a line from `from` on, as pairs of positions: where each
/// word starts and where it ends.
pub open spec fn words_from(line: Seq<char>, from: int) -> Seq<(int, int)>
    decreases line.len() - from,
    when from >= 0
{
    let start = skip_space(line, from);
    if start >= line.len() {
        Seq::empty()
    } else {
        let end = skip_word(line, start);
        if end > start {
            proof {
                lemma_skip_space_bounds(line, from);
                lemma_skip_word_bounds(line, start);
            }
            seq![(start, end)] + words_from(line, end)
        } else {
            Seq::empty()
        }
    }
}

/// Skipping white space never goes back, and stops at the end of the line.
pub proof fn lemma_skip_space_bounds(line: Seq<char>, from: int)
    requires
        0 <= from,
    ensures
        from <= skip_space(line, from),
        from <= line.len() ==> skip_space(line, from) <= line.len(),
        forall|i: int| from <= i < skip_space(line, from) ==> is_space_char(#[trigger] line[i]),
        skip_space(line, from) < line.len() ==> !is_space_char(line[skip_space(line, from)]),
    decreases line.len() - from,
{
    if from < line.len() && is_space_char(line[from]) {
        lemma_skip_space_bounds(line, from + 1);
    }
}

/// Skipping a word never goes back, and stops at the end of the line.
pub proof fn lemma_skip_word_bounds(line: Seq<char>, from: int)
    requires
        0 <= from,
    ensures
        from <= skip_word(line, from),
        from <= line.len() ==> skip_word(line, from) <= line.len(),
        forall|i: int| from <= i < skip_word(line, from) ==> !is_space_char(#[trigger] line[i]),
        skip_word(line, from) < line.len() ==> is_space_char(line[skip_word(line, from)]),
    decreases line.len() - from,
{
    if from < line.len() && !is_space_char(line[from]) {
        lemma_skip_word_bounds(line, from + 1);
    }
}

/// The words of a line.
pub open spec fn words(line: Seq<char>) -> Seq<Seq<char>> {
    words_from(line, 0).map_values(|w: (int, int)| line.subrange(w.0, w.1))
}

/// The bytes that the words behind the first stand for.
pub open spec fn arguments(line: Seq<char>) -> Seq<u8> {
    Seq::new(
        (words(line).len() - 1) as nat,
        |i: int|
            match number_of(words(line)[i + 1]) {
                Some(byte) => byte,
                None => 0,
            },
    )
}

/// Whether every word of a line behind the first is a number of at most
/// 255.
pub open spec fn has_arguments(line: Seq<char>) -> bool {
    forall|i: int| 1 <= i < words(line).len() ==> number_of(#[trigger] words(line)[i]) is Some
}

/// What a line holds, given which of the three patterns match it. The
/// pattern of a label is asked first, then that of a jump, then that of an
/// instruction.
///
/// * A label is the line without the colon that ends it.
/// * A jump leads to the second word.
/// * An instruction is the first word, with the numbers behind it.
///
/// A line that no pattern matches holds nothing; nor does a line without
/// the colon, the second word or the first word to take, or with a number
/// above 255.
pub open spec fn line_of(line: Seq<char>, label: bool, jmp: bool, opcode: bool) -> Option<
    LineView,
> {
    if label {
        if line.len() > 0 && line.last() == ':' {
            Some(LineView::Label(line.drop_last()))
        } else {
            None
        }
    } else if jmp {
        if words(line).len() >= 2 {
            Some(LineView::Jmp(words(line)[1]))
        } else {
            None
        }
    } else if opcode {
        if words(line).len() >= 1 && has_arguments(line) {
            Some(LineView::Opcode(words(line)[0], arguments(line)))
        } else {
            None
        }
    } else {
        None
    }
}

/// What a line holds: what [`line_of`] makes of it and of what the three
/// patterns say of it.
pub open spec fn line_item(line: Seq<char>) -> Option<LineView> {
    line_of(
        line,
        matches(LABEL_PATTERN@, line),
        matches(JMP_PATTERN@, line),
        matches(OPCODE_PATTERN@, line),
    )
}

/// The position of the first line feed at or after `from`, or the length
/// of the text.
pub open spec fn line_end(text: Seq<char>, from: int) -> int
    decreases text.len() - from,
{
    if 0 <= from < text.len() && text[from] != '\n' {
        line_end(text, from + 1)
    } else {
        from
    }
}

/// The line that starts at `from`: up to the next line feed, without the
/// carriage return that may stand before the line feed.
pub open spec fn line_at(text: Seq<char>, from: int) -> Seq<char> {
    let end = line_end(text, from);
    if end < text.len() && end > from && text[end - 1] == '\r' {
        text.subrange(from, end - 1)
    } else {
        text.subrange(from, end)
    }
}

/// The lines of a text from `from` on. A text that ends in a line feed
/// has no empty line behind it.
pub open spec fn lines_from(text: Seq<char>, from: int) -> Seq<Seq<char>>
    decreases text.len() - from,
    when from >= 0
{
    if from >= text.len() {
        Seq::empty()
    } else {
        proof {
            lemma_line_end_bounds(text, from);
        }
        if line_end(text, from) < text.len() {
            seq![line_at(text, from)] + lines_from(text, line_end(text, from) + 1)
        } else {
            seq![line_at(text, from)]
        }
    }
}

/// The end of a line lies at or behind its start, and within the text.
pub proof fn lemma_line_end_bounds(text: Seq<char>, from: int)
    requires
        0 <= from,
    ensures
        from <= line_end(text, from),
        from <= text.len() ==> line_end(text, from) <= text.len(),
        forall|i: int| from <= i < line_end(text, from) ==> #[trigger] text[i] != '\n',
        line_end(text, from) < text.len() ==> text[line_end(text, from)] == '\n',
    decreases text.len() - from,
{
    if from < text.len() && text[from] != '\n' {
        lemma_line_end_bounds(text, from + 1);
    }
}

/// What the valid lines among the given ones hold, in order.
pub open spec fn valid_lines(lines: Seq<Seq<char>>) -> Seq<LineView>
    decreases lines.len(),
{
    if lines.len() == 0 {
        Seq::empty()
    } else {
        match line_item(lines.last()) {
            Some(item) => valid_lines(lines.drop_last()).push(item),
            None => valid_lines(lines.drop_last()),
        }
    }
}

/// The numbers of the invalid lines among the given ones, counted from
/// one, each with what is said of it.
pub open spec fn invalid_lines(lines: Seq<Seq<char>>) -> Seq<(usize, &'static str)>
    decreases lines.len(),
{
    if lines.len() == 0 {
        Seq::empty()
    } else {
        match line_item(lines.last()) {
            Some(_) => invalid_lines(lines.drop_last()),
            None => invalid_lines(lines.drop_last()).push(
                (lines.len() as usize, invalid_line_message()),
            ),
        }
    }
}

/// What a text parses to: what its lines hold, or, if any line is invalid,
/// the invalid lines.
pub open spec fn parsed(text: Seq<char>) -> Result<Seq<LineView>, Seq<(usize, &'static str)>> {
    let lines = lines_from(text, 0);
    if invalid_lines(lines).len() == 0 {
        Ok(valid_lines(lines))
    } else {
        Err(invalid_lines(lines))
    }
}

/// What parsed lines hold, as mathematical values.
pub open spec fn line_views(items: Seq<LabelOrOpcode>) -> Seq<LineView> {
    items.map_values(|item: LabelOrOpcode| item@)
}

/// Pairs of positions as pairs of integers.
pub open spec fn as_ints(pairs: Seq<(usize, usize)>) -> Seq<(int, int)> {
    pairs.map_values(|p: (usize, usize)| (p.0 as int, p.1 as int))
}

/// The value of the digits of a word from a position on, if all of them
/// are digits of the radix, there is at least one, and the value is at
/// most 255.
fn digits_in(word: &[char], from: usize, radix: u32) -> (r: Option<u8>)
    requires
        from <= word@.len(),
        radix == 10 || radix == 16,
    ensures
        match r {
            Some(v) => is_digits(word@, from as int, radix as nat) && digits_value(
                word@,
                from as int,
                (word@.len() - from) as nat,
                radix as nat,
            ) == v,
            None => !is_digits(word@, from as int, radix as nat) || digits_value(
                word@,
                from as int,
                (word@.len() - from) as nat,
                radix as nat,
            ) > 255,
        },
{
    let to = word.len();
    if from == to {
        return None;
    }
    let mut value: u32 = 0;
    let mut exceeded = false;
    let mut i = from;
    while i < to
        invariant
            from <= i <= to,
            to == word@.len(),
            radix == 10 || radix == 16,
            forall|k: int| from <= k < i ==> digit_of(#[trigger] word@[k], radix as nat) is Some,
            !exceeded ==> value == digits_value(word@, from as int, (i - from) as nat, radix as nat)
                && value <= 255,
            exceeded ==> digits_value(word@, from as int, (i - from) as nat, radix as nat) > 255,
        decreases to - i,
    {
        match digit_value(word[i], radix) {
            None => {
                return None;
            },
            Some(digit) => {
                let ghost before = digits_value(
                    word@,
                    from as int,
                    (i - from) as nat,
                    radix as nat,
                );
                assert(digits_value(word@, from as int, (i + 1 - from) as nat, radix as nat)
                    == before * radix + digit);
                if !exceeded {
                    value = value * radix + digit;
                    if value > 255 {
                        exceeded = true;
                    }
                } else {
                    assert(before * radix + digit > 255) by (nonlinear_arith)
                        requires
                            before > 255,
                            radix >= 1,
                            digit >= 0,
                    ;
                }
            },
        }
        i += 1;
    }
    if exceeded {
        None
    } else {
        Some(value as u8)
    }
}

/// The byte that the characters between two positions stand for, if they
/// are a number of at most 255.
fn number_in(line: &[char], from: usize, to: usize) -> (r: Option<u8>)
    requires
        from <= to <= line@.len(),
    ensures
        r == number_of(line@.subrange(from as int, to as int)),
{
    let word = slice_subrange(line, from, to);
    if word.len() >= 2 && word[0] == '0' && word[1] == 'x' {
        // a word that starts like this is no decimal number
        assert(digit_of(word@[1], 10) is None);
        digits_in(word, 2, 16)
    } else {
        digits_in(word, 0, 10)
    }
}

/// The byte that a word stands for: a decimal number, or a hexadecimal
/// number behind `0x`, of at most 255.
pub fn parse_number(inp: &str) -> (r: Option<u8>)
    ensures
        r == number_of(inp@),
{
    let chars = chars_of(inp);
    assert(chars@.subrange(0, chars@.len() as int) =~= chars@);
    number_in(chars.as_slice(), 0, chars.len())
}

/// Finds the next word of a line at or after a position.
fn next_word(line: &[char], from: usize) -> (r: Option<(usize, usize)>)
    requires
        from <= line@.len(),
    ensures
        match r {
            Some((start, end)) => {
                &&& from <= start < end <= line@.len()
                &&& words_from(line@, from as int) == seq![(start as int, end as int)]
                    + words_from(line@, end as int)
            },
            None => words_from(line@, from as int) == Seq::<(int, int)>::empty(),
        },
{
    let mut start = from;
    while start < line.len() && is_space(line[start])
        invariant
            from <= start <= line@.len(),
            skip_space(line@, from as int) == skip_space(line@, start as int),
        decreases line@.len() - start,
    {
        start += 1;
    }
    if start >= line.len() {
        return None;
    }
    let mut end = start + 1;
    assert(skip_word(line@, start as int) == skip_word(line@, start + 1));
    while end < line.len() && !is_space(line[end])
        invariant
            start < end <= line@.len(),
            skip_word(line@, start as int) == skip_word(line@, end as int),
        decreases line@.len() - end,
    {
        end += 1;
    }
    Some((start, end))
}

/// What a line of a text holds, given which of the three patterns match
/// it. The line lies between two positions of the text, of which `chars`
/// are the characters.
pub fn parse_line<'input>(
    input: &'input str,
    chars: &[char],
    from: usize,
    to: usize,
    label: bool,
    jmp: bool,
    opcode: bool,
) -> (r: Option<LabelOrOpcode<'input>>)
    requires
        chars@ == input@,
        from <= to <= chars@.len(),
    ensures
        match r {
            Some(item) => line_of(chars@.subrange(from as int, to as int), label, jmp, opcode)
                == Some(item@),
            None => line_of(chars@.subrange(from as int, to as int), label, jmp, opcode) is None,
        },
{
    let line = slice_subrange(chars, from, to);
    let len = to - from;
    if label {
        if len > 0 && line[len - 1] == ':' {
            let name = input.substring_char(from, to - 1);
            assert(name@ =~= line@.drop_last());
            return Some(LabelOrOpcode::Label(name));
        }
        return None;
    }
    if !jmp && !opcode {
        return None;
    }
    let mut found: Vec<(usize, usize)> = Vec::new();
    let mut pos: usize = 0;
    assert(as_ints(found@) =~= Seq::<(int, int)>::empty());
    loop
        invariant_except_break
            pos <= line@.len(),
            words_from(line@, 0) == as_ints(found@) + words_from(line@, pos as int),
            forall|i: int| 0 <= i < found@.len() ==> (#[trigger] found@[i]).0 < found@[i].1 <= pos,
        ensures
            words_from(line@, 0) == as_ints(found@),
            forall|i: int|
                0 <= i < found@.len() ==> (#[trigger] found@[i]).0 < found@[i].1 <= line@.len(),
        decreases line@.len() - pos,
    {
        match next_word(line, pos) {
            None => {
                assert(as_ints(found@) + Seq::<(int, int)>::empty() =~= as_ints(found@));
                break ;
            },
            Some((start, end)) => {
                let ghost before = found@;
                found.push((start, end));
                assert(as_ints(found@) =~= as_ints(before) + seq![(start as int, end as int)]);
                assert(as_ints(before) + (seq![(start as int, end as int)] + words_from(
                    line@,
                    end as int,
                )) =~= as_ints(found@) + words_from(line@, end as int));
                pos = end;
            },
        }
    }
    let ghost all = words(line@);
    assert(all.len() == found@.len());
    assert forall|i: int| 0 <= i < found@.len() implies #[trigger] all[i] == line@.subrange(
        found@[i].0 as int,
        found@[i].1 as int,
    ) by {
        assert(words_from(line@, 0)[i] == as_ints(found@)[i]);
    }
    if jmp {
        if found.len() >= 2 {
            let (start, end) = found[1];
            let name = input.substring_char(from + start, from + end);
            assert(name@ =~= all[1]);
            return Some(LabelOrOpcode::Jmp(name));
        }
        return None;
    }
    if found.len() == 0 {
        return None;
    }
    let mut args: Vec<u8> = Vec::new();
    let mut i: usize = 1;
    while i < found.len()
        invariant
            1 <= i <= found@.len(),
            line@ == chars@.subrange(from as int, to as int),
            !label,
            !jmp,
            opcode,
            all == words(line@),
            all.len() == found@.len(),
            args@.len() == i - 1,
            forall|k: int|
                0 <= k < found@.len() ==> (#[trigger] found@[k]).0 < found@[k].1 <= line@.len(),
            forall|k: int|
                0 <= k < found@.len() ==> #[trigger] all[k] == line@.subrange(
                    found@[k].0 as int,
                    found@[k].1 as int,
                ),
            forall|k: int| 1 <= k < i ==> number_of(#[trigger] all[k]) == Some(args@[k - 1]),
        decreases found@.len() - i,
    {
        let (a, b) = found[i];
        assert(all[i as int] == line@.subrange(a as int, b as int));
        match number_in(line, a, b) {
            None => {
                return None;
            },
            Some(byte) => {
                args.push(byte);
            },
        }
        i += 1;
    }
    assert(args@ =~= arguments(line@));
    let (start, end) = found[0];
    let name = input.substring_char(from + start, from + end);
    assert(name@ =~= all[0]);
    Some(LabelOrOpcode::Opcode(name, args))
}

/// Whether a pattern is a regular expression that matches in a text.
fn matches_pattern(pattern: &str, text: &str) -> (r: bool)
    ensures
        r == matches(pattern@, text@),
{
    match is_match(pattern, text) {
        Some(found) => found,
        None => false,
    }
}

/// Parses assembler source, a label or an instruction to the line. If any
/// line is invalid, the numbers of all the invalid lines come back
/// instead, counted from one.
pub fn parse<'input>(input: &'input str) -> (r: Result<
    Vec<LabelOrOpcode<'input>>,
    Vec<(usize, &'static str)>,
>)
    ensures
        match r {
            Ok(items) => parsed(input@) == Ok::<Seq<LineView>, Seq<(usize, &'static str)>>(
                line_views(items@),
            ),
            Err(errors) => parsed(input@) == Err::<Seq<LineView>, Seq<(usize, &'static str)>>(
                errors@,
            ),
        },
{
    let chars = chars_of(input);
    let text = chars.as_slice();
    let mut out: Vec<LabelOrOpcode<'input>> = Vec::new();
    let mut errors: Vec<(usize, &'static str)> = Vec::new();
    let mut pos: usize = 0;
    let mut idx: usize = 0;
    let ghost mut done: Seq<Seq<char>> = Seq::empty();
    assert(line_views(out@) =~= Seq::<LineView>::empty());
    assert(done + lines_from(text@, 0) =~= lines_from(text@, 0));
    while pos < text.len()
        invariant
            pos <= text@.len(),
            text@ == input@,
            idx == done.len(),
            idx <= pos,
            lines_from(text@, 0) == done + lines_from(text@, pos as int),
            line_views(out@) == valid_lines(done),
            errors@ == invalid_lines(done),
        decreases text@.len() - pos,
    {
        let mut end = pos;
        while end < text.len() && text[end] != '\n'
            invariant
                pos <= end <= text@.len(),
                line_end(text@, pos as int) == line_end(text@, end as int),
            decreases text@.len() - end,
        {
            end += 1;
        }
        let stop = if end < text.len() && end > pos && text[end - 1] == '\r' {
            end - 1
        } else {
            end
        };
        let ghost line = text@.subrange(pos as int, stop as int);
        assert(line == line_at(text@, pos as int));
        let ghost before = done;
        let ghost before_out = out@;
        proof {
            done = done.push(line);
            assert(done.drop_last() =~= before);
        }
        idx += 1;
        let source = input.substring_char(pos, stop);
        let label = matches_pattern(LABEL_PATTERN, source);
        let jmp = matches_pattern(JMP_PATTERN, source);
        let opcode = matches_pattern(OPCODE_PATTERN, source);
        match parse_line(input, text, pos, stop, label, jmp, opcode) {
            Some(item) => {
                out.push(item);
                assert(line_views(out@) =~= line_views(before_out).push(item@));
            },
            None => {
                errors.push((idx, "Invalid line"));
            },
        }
        if end < text.len() {
            assert(before + (seq![line] + lines_from(text@, end + 1)) =~= done + lines_from(
                text@,
                end + 1,
            ));
            pos = end + 1;
        } else {
            assert(before + seq![line] =~= done + lines_from(text@, text@.len() as int));
            pos = end;
        }
    }
    assert(done + lines_from(text@, pos as int) =~= done);
    if errors.len() == 0 {
        Ok(out)
    } else {
        Err(errors)
    }
}

} // verus!
