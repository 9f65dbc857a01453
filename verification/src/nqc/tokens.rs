//! A second lexer for NQC, which takes operators as runs of signs and
//! numbers as values.
//!
//! The source is a run of tokens with white space and comments between
//! them. A comment runs from `//` to the end of the line. A token is the
//! first of these that is found:
//!
//! * a number: a single `0`, or digits of which the first is no `0`;
//! * an operator: as many of `+ * - / ! =` as follow each other;
//! * one of the characters `( ) [ ] { } ; ,`;
//! * a word, which is a keyword or an identifier.
//!
//! What starts and what continues a word is asked of chumsky, which goes
//! by the Unicode standard. Positions count characters of the source.

use vstd::prelude::*;
use vstd::slice::slice_subrange;
use vstd::string::StrSliceExecFns;
use vstd::string::StringExecFns;
use chumsky::text::Char;
use crate::nqc::lexer::{keyword, keyword_of, Keyword};
use crate::text::{
    chars_of, digit_of, digit_value, digits_value, is_space, is_space_char, push_signed_decimal,
    signed_decimal,
};

verus! {

/// A stretch of the source: from a position up to another.
#[derive(Debug, Clone, Copy, PartialEq, Eq)]
pub struct SimpleSpan {
    /// The position of the first character.
    pub start: usize,
    /// The position behind the last character.
    pub end: usize,
}

/// A stretch of the source.
pub type Span = SimpleSpan;

/// A value with the stretch of the source that it comes from.
pub type Spanned<T> = (T, Span);

/// A token.
#[derive(Clone, Debug, PartialEq)]
pub enum Token<'src> {
    /// The lexer makes no such token.
    Null,
    /// A number.
    Int(i16),
    /// A run of the signs `+ * - / ! =`.
    Op(&'src str),
    /// One of the characters `( ) [ ] { } ; ,`.
    Ctrl(char),
    /// A word that is no keyword.
    Ident(&'src str),
    /// A keyword.
    Kw(Keyword),
}

/// A token as a mathematical value.
pub enum TokenView {
    Null,
    Int(i16),
    Op(Seq<char>),
    Ctrl(char),
    Ident(Seq<char>),
    Kw(Keyword),
}

impl<'src> View for Token<'src> {
    type V = TokenView;

    open spec fn view(&self) -> TokenView {
        match self {
            Token::Null => TokenView::Null,
            Token::Int(value) => TokenView::Int(*value),
            Token::Op(signs) => TokenView::Op(signs@),
            Token::Ctrl(c) => TokenView::Ctrl(*c),
            Token::Ident(name) => TokenView::Ident(name@),
            Token::Kw(keyword) => TokenView::Kw(*keyword),
        }
    }
}

/// Why a stretch of the source is no token.
#[derive(Debug, Clone, Copy, PartialEq, Eq)]
pub enum Reason {
    /// The character starts no token.
    UnexpectedCharacter(char),
    /// The number has a fraction, or is above 32767.
    Number,
}

/// A stretch of the source that is no token.
#[derive(Debug, Clone, Copy, PartialEq, Eq)]
pub struct LexError {
    /// The stretch that was passed over.
    pub span: Span,
    /// Why it is no token.
    pub reason: Reason,
}

/// Whether chumsky takes a character to start an identifier: a character
/// that the Unicode standard lets start one, or `_`.
pub uninterp spec fn starts_ident(c: char) -> bool;

/// Whether chumsky takes a character to continue an identifier.
pub uninterp spec fn continues_ident(c: char) -> bool;

/// Calls `is_ident_start` of chumsky's trait `Char` on a character. The
/// result depends on the character alone; the contract gives it its name
/// and says no more of it.
#[verifier::external_body]
fn is_ident_start(c: char) -> (r: bool)
    ensures
        r == starts_ident(c),
{
    Char::is_ident_start(&c)
}

/// Calls `is_ident_continue` of chumsky's trait `Char` on a character. The
/// result depends on the character alone; the contract gives it its name
/// and says no more of it.
#[verifier::external_body]
fn is_ident_continue(c: char) -> (r: bool)
    ensures
        r == continues_ident(c),
{
    Char::is_ident_continue(&c)
}

/// For every character of a source, whether it starts an identifier.
pub open spec fn ident_starts(chars: Seq<char>) -> Seq<bool> {
    Seq::new(chars.len(), |i: int| starts_ident(chars[i]))
}

/// For every character of a source, whether it continues an identifier.
pub open spec fn ident_continues(chars: Seq<char>) -> Seq<bool> {
    Seq::new(chars.len(), |i: int| continues_ident(chars[i]))
}

/// Whether a character is a sign that operators are made of.
pub open spec fn is_op_char(c: char) -> bool {
    c == '+' || c == '*' || c == '-' || c == '/' || c == '!' || c == '='
}

/// Whether a character is a token by itself.
pub open spec fn is_ctrl_char(c: char) -> bool {
    c == '(' || c == ')' || c == '[' || c == ']' || c == '{' || c == '}' || c == ';' || c == ','
}

/// Whether a character is a digit of ASCII.
pub open spec fn is_digit_char(c: char) -> bool {
    '0' <= c <= '9'
}

/// The runs of characters that the lexer takes as one.
#[derive(Clone, Copy, Debug, PartialEq, Eq, Structural)]
pub enum Run {
    /// White space.
    Space,
    /// Digits.
    Digits,
    /// The signs of operators.
    Signs,
    /// Anything but a line feed: what a comment is made of.
    Comment,
    /// What continues an identifier.
    Word,
}

/// Whether the character at a position belongs to a run. `continues` says
/// of every character whether it continues an identifier.
pub open spec fn in_run(chars: Seq<char>, continues: Seq<bool>, at: int, run: Run) -> bool {
    match run {
        Run::Space => is_space_char(chars[at]),
        Run::Digits => is_digit_char(chars[at]),
        Run::Signs => is_op_char(chars[at]),
        Run::Comment => chars[at] != '\n',
        Run::Word => continues[at],
    }
}

/// The first position at or after `from` whose character does not belong
/// to the run, or the length of the source.
pub open spec fn run_end(chars: Seq<char>, continues: Seq<bool>, from: int, run: Run) -> int
    decreases chars.len() - from,
{
    if 0 <= from < chars.len() && in_run(chars, continues, from, run) {
        run_end(chars, continues, from + 1, run)
    } else {
        from
    }
}

/// A run ends at or behind its start, and within the source.
pub proof fn lemma_run_end(chars: Seq<char>, continues: Seq<bool>, from: int, run: Run)
    requires
        0 <= from <= chars.len(),
    ensures
        from <= run_end(chars, continues, from, run) <= chars.len(),
    decreases chars.len() - from,
{
    if from < chars.len() && in_run(chars, continues, from, run) {
        lemma_run_end(chars, continues, from + 1, run);
    }
}

/// Whether a comment starts at a position.
pub open spec fn comment_at(chars: Seq<char>, at: int) -> bool {
    0 <= at && at + 1 < chars.len() && chars[at] == '/' && chars[at + 1] == '/'
}

/// The first position at or after `from` that is neither in white space
/// nor in a comment, or the length of the source.
pub open spec fn padding_end(chars: Seq<char>, continues: Seq<bool>, from: int) -> int
    decreases chars.len() - from,
    when 0 <= from <= chars.len()
{
    let at = run_end(chars, continues, from, Run::Space);
    if comment_at(chars, at) {
        proof {
            lemma_run_end(chars, continues, from, Run::Space);
            lemma_run_end(chars, continues, at + 2, Run::Comment);
        }
        padding_end(chars, continues, run_end(chars, continues, at + 2, Run::Comment))
    } else {
        at
    }
}

/// What the lexer makes of the source at a position.
pub struct Scan {
    /// A token, or why there is none.
    pub outcome: Result<TokenView, Reason>,
    /// Where the lexer goes on.
    pub end: int,
}

/// The greatest number that a token can hold.
pub const MAX_INT: u32 = 32767;

/// What the lexer makes of the source at a position within it that is
/// neither in white space nor in a comment. `starts` and `continues` say
/// of every character whether it starts and whether it continues an
/// identifier.
///
/// A number that is followed by a point and a digit has a fraction: it is
/// passed over with its fraction, and so is a number above 32767.
pub open spec fn scan_at(chars: Seq<char>, starts: Seq<bool>, continues: Seq<bool>, at: int) -> Scan {
    let c = chars[at];
    if is_digit_char(c) {
        let digits = if c == '0' {
            at + 1
        } else {
            run_end(chars, continues, at + 1, Run::Digits)
        };
        let value = digits_value(chars, at, (digits - at) as nat, 10);
        if digits + 1 < chars.len() && chars[digits] == '.' && is_digit_char(chars[digits + 1]) {
            Scan {
                outcome: Err(Reason::Number),
                end: run_end(chars, continues, digits + 1, Run::Digits),
            }
        } else if value > MAX_INT {
            Scan { outcome: Err(Reason::Number), end: digits }
        } else {
            Scan { outcome: Ok(TokenView::Int(value as i16)), end: digits }
        }
    } else if is_op_char(c) {
        let end = run_end(chars, continues, at + 1, Run::Signs);
        Scan { outcome: Ok(TokenView::Op(chars.subrange(at, end))), end }
    } else if is_ctrl_char(c) {
        Scan { outcome: Ok(TokenView::Ctrl(c)), end: at + 1 }
    } else if starts[at] {
        let end = run_end(chars, continues, at + 1, Run::Word);
        let word = chars.subrange(at, end);
        match keyword_of(word) {
            Some(keyword) => Scan { outcome: Ok(TokenView::Kw(keyword)), end },
            None => Scan { outcome: Ok(TokenView::Ident(word)), end },
        }
    } else {
        Scan { outcome: Err(Reason::UnexpectedCharacter(c)), end: at + 1 }
    }
}

/// The tokens and the errors that the lexer makes of the source from a
/// position on, each in the order of the source.
pub open spec fn lex_from(chars: Seq<char>, starts: Seq<bool>, continues: Seq<bool>, from: int) -> (
    Seq<(TokenView, Span)>,
    Seq<LexError>,
)
    decreases chars.len() - from,
    when 0 <= from <= chars.len()
{
    let at = padding_end(chars, continues, from);
    if from <= at < chars.len() {
        let scan = scan_at(chars, starts, continues, at);
        if at < scan.end <= chars.len() {
            let rest = lex_from(chars, starts, continues, scan.end);
            let span = SimpleSpan { start: at as usize, end: scan.end as usize };
            match scan.outcome {
                Ok(token) => (seq![(token, span)] + rest.0, rest.1),
                Err(reason) => (rest.0, seq![LexError { span, reason }] + rest.1),
            }
        } else {
            (Seq::empty(), Seq::empty())
        }
    } else {
        (Seq::empty(), Seq::empty())
    }
}

/// The tokens and the errors of a source, given of every character
/// whether it starts and whether it continues an identifier.
pub open spec fn lexed(chars: Seq<char>, starts: Seq<bool>, continues: Seq<bool>) -> (
    Seq<(TokenView, Span)>,
    Seq<LexError>,
) {
    lex_from(chars, starts, continues, 0)
}

/// Tokens with their stretches, as mathematical values.
pub open spec fn spanned_views(tokens: Seq<(Token, Span)>) -> Seq<(TokenView, Span)> {
    tokens.map_values(|token: (Token, Span)| (token.0@, token.1))
}

/// Every token and every error takes at least one character, and stays
/// within the source.
pub proof fn lemma_scan_moves_on(
    chars: Seq<char>,
    starts: Seq<bool>,
    continues: Seq<bool>,
    at: int,
)
    requires
        0 <= at < chars.len(),
    ensures
        at < scan_at(chars, starts, continues, at).end <= chars.len(),
{
    lemma_run_end(chars, continues, at + 1, Run::Digits);
    lemma_run_end(chars, continues, at + 1, Run::Signs);
    lemma_run_end(chars, continues, at + 1, Run::Word);
    let c = chars[at];
    if is_digit_char(c) {
        let digits = if c == '0' {
            at + 1
        } else {
            run_end(chars, continues, at + 1, Run::Digits)
        };
        if digits + 1 < chars.len() {
            lemma_run_end(chars, continues, digits + 1, Run::Digits);
        }
    }
}

/// Whether a character is a sign that operators are made of.
fn is_op(c: char) -> (r: bool)
    ensures
        r == is_op_char(c),
{
    c == '+' || c == '*' || c == '-' || c == '/' || c == '!' || c == '='
}

/// Whether a character is a token by itself.
fn is_ctrl(c: char) -> (r: bool)
    ensures
        r == is_ctrl_char(c),
{
    c == '(' || c == ')' || c == '[' || c == ']' || c == '{' || c == '}' || c == ';' || c == ','
}

/// Whether a character is a digit of ASCII.
fn is_digit(c: char) -> (r: bool)
    ensures
        r == is_digit_char(c),
{
    '0' <= c && c <= '9'
}

/// Finds where a run ends.
fn scan_run(chars: &[char], continues: &[bool], from: usize, run: Run) -> (end: usize)
    requires
        continues@.len() == chars@.len(),
        from <= chars@.len(),
    ensures
        end == run_end(chars@, continues@, from as int, run),
        from <= end <= chars@.len(),
{
    let mut end = from;
    loop
        invariant_except_break
            from <= end <= chars@.len(),
            continues@.len() == chars@.len(),
            run_end(chars@, continues@, from as int, run) == run_end(
                chars@,
                continues@,
                end as int,
                run,
            ),
        ensures
            from <= end <= chars@.len(),
            end == run_end(chars@, continues@, from as int, run),
        decreases chars@.len() - end,
    {
        if end >= chars.len() {
            break ;
        }
        let c = chars[end];
        let inside = match run {
            Run::Space => is_space(c),
            Run::Digits => is_digit(c),
            Run::Signs => is_op(c),
            Run::Comment => c != '\n',
            Run::Word => continues[end],
        };
        if !inside {
            break ;
        }
        end += 1;
    }
    end
}

/// Passes white space and comments.
fn skip_padding(chars: &[char], continues: &[bool], from: usize) -> (at: usize)
    requires
        continues@.len() == chars@.len(),
        from <= chars@.len(),
    ensures
        at == padding_end(chars@, continues@, from as int),
        from <= at <= chars@.len(),
{
    let mut at = from;
    loop
        invariant_except_break
            from <= at <= chars@.len(),
            continues@.len() == chars@.len(),
            padding_end(chars@, continues@, from as int) == padding_end(
                chars@,
                continues@,
                at as int,
            ),
        ensures
            from <= at <= chars@.len(),
            at == padding_end(chars@, continues@, from as int),
        decreases chars@.len() - at,
    {
        let space_end = scan_run(chars, continues, at, Run::Space);
        if space_end < chars.len() && chars.len() - space_end >= 2 && chars[space_end] == '/'
            && chars[space_end + 1] == '/' {
            let next = scan_run(chars, continues, space_end + 2, Run::Comment);
            at = next;
        } else {
            at = space_end;
            break ;
        }
    }
    at
}

/// The value of the decimal digits between two positions, up to the
/// greatest that a token can hold.
fn int_value(chars: &[char], from: usize, to: usize) -> (r: Option<u32>)
    requires
        from <= to <= chars@.len(),
        forall|i: int| from <= i < to ==> is_digit_char(#[trigger] chars@[i]),
    ensures
        match r {
            Some(value) => value == digits_value(chars@, from as int, (to - from) as nat, 10)
                && value <= MAX_INT,
            None => digits_value(chars@, from as int, (to - from) as nat, 10) > MAX_INT,
        },
{
    let mut value: u32 = 0;
    let mut i = from;
    while i < to
        invariant
            from <= i <= to,
            to <= chars@.len(),
            forall|k: int| from <= k < to ==> is_digit_char(#[trigger] chars@[k]),
            value == digits_value(chars@, from as int, (i - from) as nat, 10),
            value <= MAX_INT,
        decreases to - i,
    {
        assert(is_digit_char(chars@[i as int]));
        let digit = match digit_value(chars[i], 10) {
            Some(digit) => digit,
            None => 0,
        };
        let ghost before = digits_value(chars@, from as int, (i - from) as nat, 10);
        assert(digits_value(chars@, from as int, (i + 1 - from) as nat, 10) == before * 10
            + digit);
        value = value * 10 + digit;
        if value > MAX_INT {
            proof {
                lemma_digits_grow(chars@, from as int, (i + 1 - from) as nat, (to - from) as nat);
            }
            return None;
        }
        i += 1;
    }
    Some(value)
}

/// More digits make no smaller value.
proof fn lemma_digits_grow(chars: Seq<char>, from: int, n: nat, m: nat)
    requires
        n <= m,
    ensures
        digits_value(chars, from, n, 10) <= digits_value(chars, from, m, 10),
    decreases m,
{
    if n < m {
        lemma_digits_grow(chars, from, n, (m - 1) as nat);
    }
}

/// Reads one token at a position of the source that is neither in white
/// space nor in a comment, and returns it with the position behind it.
/// `chars` are the characters of `src`; `starts` and `continues` say of
/// every character whether it starts and whether it continues an
/// identifier.
pub fn scan_token<'src>(
    src: &'src str,
    chars: &[char],
    starts: &[bool],
    continues: &[bool],
    at: usize,
) -> (r: (Result<Token<'src>, Reason>, usize))
    requires
        chars@ == src@,
        starts@.len() == chars@.len(),
        continues@.len() == chars@.len(),
        at < chars@.len(),
    ensures
        match r.0 {
            Ok(token) => scan_at(chars@, starts@, continues@, at as int).outcome == Ok::<
                TokenView,
                Reason,
            >(token@),
            Err(reason) => scan_at(chars@, starts@, continues@, at as int).outcome == Err::<
                TokenView,
                Reason,
            >(reason),
        },
        r.1 == scan_at(chars@, starts@, continues@, at as int).end,
        at < r.1 <= chars@.len(),
{
    proof {
        lemma_scan_moves_on(chars@, starts@, continues@, at as int);
    }
    let c = chars[at];
    if is_digit(c) {
        let digits = if c == '0' {
            at + 1
        } else {
            scan_run(chars, continues, at + 1, Run::Digits)
        };
        proof {
            lemma_digits_run(chars@, continues@, at + 1, digits as int);
        }
        if digits < chars.len() && chars.len() - digits >= 2 && chars[digits] == '.' && is_digit(
            chars[digits + 1],
        ) {
            let end = scan_run(chars, continues, digits + 1, Run::Digits);
            return (Err(Reason::Number), end);
        }
        match int_value(chars, at, digits) {
            Some(value) => (Ok(Token::Int(value as i16)), digits),
            None => (Err(Reason::Number), digits),
        }
    } else if is_op(c) {
        let end = scan_run(chars, continues, at + 1, Run::Signs);
        (Ok(Token::Op(src.substring_char(at, end))), end)
    } else if is_ctrl(c) {
        (Ok(Token::Ctrl(c)), at + 1)
    } else if starts[at] {
        let end = scan_run(chars, continues, at + 1, Run::Word);
        match keyword(slice_subrange(chars, at, end)) {
            Some(found) => (Ok(Token::Kw(found)), end),
            None => (Ok(Token::Ident(src.substring_char(at, end))), end),
        }
    } else {
        (Err(Reason::UnexpectedCharacter(c)), at + 1)
    }
}

/// The characters of a run of digits are digits.
proof fn lemma_digits_run(chars: Seq<char>, continues: Seq<bool>, from: int, end: int)
    requires
        0 <= from <= chars.len(),
        end == from || end == run_end(chars, continues, from, Run::Digits),
    ensures
        forall|i: int| from <= i < end ==> is_digit_char(#[trigger] chars[i]),
    decreases chars.len() - from,
{
    if end != from && from < chars.len() && in_run(chars, continues, from, Run::Digits) {
        lemma_digits_run(
            chars,
            continues,
            from + 1,
            run_end(chars, continues, from + 1, Run::Digits),
        );
    }
}

/// Lexes a source, given of every character whether it starts and whether
/// it continues an identifier. The tokens come back with their stretches,
/// and beside them what was passed over as no token.
pub fn scan_tokens<'src>(src: &'src str, chars: &[char], starts: &[bool], continues: &[bool]) -> (r:
    (Vec<Spanned<Token<'src>>>, Vec<LexError>))
    requires
        chars@ == src@,
        starts@.len() == chars@.len(),
        continues@.len() == chars@.len(),
    ensures
        spanned_views(r.0@) == lexed(chars@, starts@, continues@).0,
        r.1@ == lexed(chars@, starts@, continues@).1,
{
    let mut tokens: Vec<Spanned<Token<'src>>> = Vec::new();
    let mut errors: Vec<LexError> = Vec::new();
    let mut pos: usize = 0;
    let ghost all = lexed(chars@, starts@, continues@);
    assert(spanned_views(tokens@) =~= Seq::<(TokenView, Span)>::empty());
    assert(spanned_views(tokens@) + lex_from(chars@, starts@, continues@, 0).0 =~= all.0);
    assert(errors@ + lex_from(chars@, starts@, continues@, 0).1 =~= all.1);
    loop
        invariant_except_break
            pos <= chars@.len(),
            chars@ == src@,
            starts@.len() == chars@.len(),
            continues@.len() == chars@.len(),
            all == lexed(chars@, starts@, continues@),
            all.0 == spanned_views(tokens@) + lex_from(chars@, starts@, continues@, pos as int).0,
            all.1 == errors@ + lex_from(chars@, starts@, continues@, pos as int).1,
        ensures
            all == lexed(chars@, starts@, continues@),
            all.0 == spanned_views(tokens@),
            all.1 == errors@,
        decreases chars@.len() - pos,
    {
        let ghost from = pos as int;
        let at = skip_padding(chars, continues, pos);
        if at >= chars.len() {
            assert(spanned_views(tokens@) + Seq::<(TokenView, Span)>::empty() =~= spanned_views(
                tokens@,
            ));
            assert(errors@ + Seq::<LexError>::empty() =~= errors@);
            break ;
        }
        let (outcome, end) = scan_token(src, chars, starts, continues, at);
        let span = SimpleSpan { start: at, end };
        let ghost rest = lex_from(chars@, starts@, continues@, end as int);
        let ghost had_tokens = tokens@;
        let ghost had_errors = errors@;
        match outcome {
            Ok(token) => {
                tokens.push((token, span));
                assert(spanned_views(tokens@) =~= spanned_views(had_tokens).push((token@, span)));
                assert(spanned_views(had_tokens) + (seq![(token@, span)] + rest.0)
                    =~= spanned_views(tokens@) + rest.0);
            },
            Err(reason) => {
                let error = LexError { span, reason };
                errors.push(error);
                assert(had_errors + (seq![error] + rest.1) =~= errors@ + rest.1);
            },
        }
        pos = end;
    }
    (tokens, errors)
}

/// For every character of a source, whether it starts and whether it
/// continues an identifier.
pub fn ident_flags(chars: &[char]) -> (r: (Vec<bool>, Vec<bool>))
    ensures
        r.0@ == ident_starts(chars@),
        r.1@ == ident_continues(chars@),
{
    let mut starts: Vec<bool> = Vec::new();
    let mut continues: Vec<bool> = Vec::new();
    let mut i: usize = 0;
    while i < chars.len()
        invariant
            i <= chars@.len(),
            starts@ == ident_starts(chars@).take(i as int),
            continues@ == ident_continues(chars@).take(i as int),
        decreases chars@.len() - i,
    {
        starts.push(is_ident_start(chars[i]));
        continues.push(is_ident_continue(chars[i]));
        i += 1;
        assert(starts@ =~= ident_starts(chars@).take(i as int));
        assert(continues@ =~= ident_continues(chars@).take(i as int));
    }
    assert(ident_starts(chars@).take(i as int) =~= ident_starts(chars@));
    assert(ident_continues(chars@).take(i as int) =~= ident_continues(chars@));
    (starts, continues)
}

/// Lexes a source. The tokens come back with their stretches, and beside
/// them what was passed over as no token.
pub fn lexer<'src>(src: &'src str) -> (r: (Vec<Spanned<Token<'src>>>, Vec<LexError>))
    ensures
        spanned_views(r.0@) == lexed(src@, ident_starts(src@), ident_continues(src@)).0,
        r.1@ == lexed(src@, ident_starts(src@), ident_continues(src@)).1,
{
    let chars = chars_of(src);
    let (starts, continues) = ident_flags(chars.as_slice());
    scan_tokens(src, chars.as_slice(), starts.as_slice(), continues.as_slice())
}

impl TokenView {
    /// The token as the source spells it; `null` for the token that the
    /// lexer does not make.
    pub open spec fn text(self) -> Seq<char> {
        match self {
            TokenView::Null => "null"@,
            TokenView::Int(value) => signed_decimal(value as int),
            TokenView::Op(signs) => signs,
            TokenView::Ctrl(c) => seq![c],
            TokenView::Ident(name) => name,
            TokenView::Kw(keyword) => keyword.word(),
        }
    }
}

impl<'src> Token<'src> {
    /// The token as the source spells it.
    pub fn to_string(&self) -> (r: String)
        ensures
            r@ == self@.text(),
    {
        match self {
            Token::Null => String::from_str("null"),
            Token::Int(value) => {
                let mut out = String::new();
                push_signed_decimal(&mut out, *value as i32);
                out
            },
            Token::Op(signs) => String::from_str(signs),
            Token::Ctrl(c) => {
                let mut out = String::new();
                out.push(*c);
                assert(out@ =~= seq![*c]);
                out
            },
            Token::Ident(name) => String::from_str(name),
            Token::Kw(keyword) => String::from_str(keyword.as_str()),
        }
    }
}

} // verus!
