//! The lexer: from characters to tokens.
//!
//! Positions and lengths count characters of the source, not bytes.

use vstd::prelude::*;
use vstd::string::StrSliceExecFns;
use vstd::string::StringExecFns;
use crate::nqc::error::{Error, ErrorKind, ErrorKindView, ErrorView};
use crate::nqc::Span;
use crate::text::chars_of;

verus! {

/// A word that the language reserves.
#[derive(Clone, Copy, Debug, PartialEq, Eq, Structural)]
pub enum Keyword {
    EventSrc,
    Nolist,
    Res,
    Sensor,
    Taskid,
    Type,
    Abs,
    Acquire,
    Asm,
    Break,
    Case,
    Catch,
    Const,
    Continue,
    Default,
    Do,
    Else,
    False,
    For,
    Goto,
    If,
    Inline,
    Int,
    Monitor,
    Repeat,
    Return,
    Sign,
    Start,
    Stop,
    Sub,
    Switch,
    Task,
    True,
    Void,
    While,
}

/// A type of the language.
#[derive(Clone, Copy, Debug, PartialEq, Eq, Structural)]
pub enum Type {
    Int,
}

/// What a token is.
#[derive(Clone, Debug, PartialEq, Eq)]
pub enum TokenKind<'src> {
    LeftParen,
    RightParen,
    LeftBracket,
    RightBracket,
    LeftBrace,
    RightBrace,
    Plus,
    Minus,
    Asterisk,
    Dot,
    Comma,
    Divide,
    Eq,
    EqEq,
    Lt,
    LtEq,
    Gt,
    GtEq,
    LShift,
    RShift,
    Semicolon,
    Hash,
    LiteralInt(&'src str),
    Ident(&'src str),
    Kw(Keyword),
}

/// What a token is, as a mathematical value.
pub enum TokenKindView {
    LeftParen,
    RightParen,
    LeftBracket,
    RightBracket,
    LeftBrace,
    RightBrace,
    Plus,
    Minus,
    Asterisk,
    Dot,
    Comma,
    Divide,
    Eq,
    EqEq,
    Lt,
    LtEq,
    Gt,
    GtEq,
    LShift,
    RShift,
    Semicolon,
    Hash,
    LiteralInt(Seq<char>),
    Ident(Seq<char>),
    Kw(Keyword),
}

impl<'src> View for TokenKind<'src> {
    type V = TokenKindView;

    open spec fn view(&self) -> TokenKindView {
        match self {
            TokenKind::LeftParen => TokenKindView::LeftParen,
            TokenKind::RightParen => TokenKindView::RightParen,
            TokenKind::LeftBracket => TokenKindView::LeftBracket,
            TokenKind::RightBracket => TokenKindView::RightBracket,
            TokenKind::LeftBrace => TokenKindView::LeftBrace,
            TokenKind::RightBrace => TokenKindView::RightBrace,
            TokenKind::Plus => TokenKindView::Plus,
            TokenKind::Minus => TokenKindView::Minus,
            TokenKind::Asterisk => TokenKindView::Asterisk,
            TokenKind::Dot => TokenKindView::Dot,
            TokenKind::Comma => TokenKindView::Comma,
            TokenKind::Divide => TokenKindView::Divide,
            TokenKind::Eq => TokenKindView::Eq,
            TokenKind::EqEq => TokenKindView::EqEq,
            TokenKind::Lt => TokenKindView::Lt,
            TokenKind::LtEq => TokenKindView::LtEq,
            TokenKind::Gt => TokenKindView::Gt,
            TokenKind::GtEq => TokenKindView::GtEq,
            TokenKind::LShift => TokenKindView::LShift,
            TokenKind::RShift => TokenKindView::RShift,
            TokenKind::Semicolon => TokenKindView::Semicolon,
            TokenKind::Hash => TokenKindView::Hash,
            TokenKind::LiteralInt(digits) => TokenKindView::LiteralInt(digits@),
            TokenKind::Ident(name) => TokenKindView::Ident(name@),
            TokenKind::Kw(keyword) => TokenKindView::Kw(*keyword),
        }
    }
}

/// A token and where it stands in the source.
#[derive(Clone, Debug, PartialEq, Eq)]
pub struct Token<'src> {
    pub kind: TokenKind<'src>,
    pub span: Span,
}

/// A token as a mathematical value.
pub struct TokenView {
    pub kind: TokenKindView,
    pub span: Span,
}

impl<'src> View for Token<'src> {
    type V = TokenView;

    open spec fn view(&self) -> TokenView {
        TokenView { kind: self.kind@, span: self.span }
    }
}

/// The keyword that a word is, if it is one.
pub open spec fn keyword_of(word: Seq<char>) -> Option<Keyword> {
    if word == "_event_src"@ {
        Some(Keyword::EventSrc)
    } else if word == "__nolist"@ {
        Some(Keyword::Nolist)
    } else if word == "__res"@ {
        Some(Keyword::Res)
    } else if word == "__sensor"@ {
        Some(Keyword::Sensor)
    } else if word == "__taskid"@ {
        Some(Keyword::Taskid)
    } else if word == "__type"@ {
        Some(Keyword::Type)
    } else if word == "abs"@ {
        Some(Keyword::Abs)
    } else if word == "acquire"@ {
        Some(Keyword::Acquire)
    } else if word == "asm"@ {
        Some(Keyword::Asm)
    } else if word == "break"@ {
        Some(Keyword::Break)
    } else if word == "case"@ {
        Some(Keyword::Case)
    } else if word == "catch"@ {
        Some(Keyword::Catch)
    } else if word == "const"@ {
        Some(Keyword::Const)
    } else if word == "continue"@ {
        Some(Keyword::Continue)
    } else if word == "default"@ {
        Some(Keyword::Default)
    } else if word == "do"@ {
        Some(Keyword::Do)
    } else if word == "else"@ {
        Some(Keyword::Else)
    } else if word == "false"@ {
        Some(Keyword::False)
    } else if word == "for"@ {
        Some(Keyword::For)
    } else if word == "goto"@ {
        Some(Keyword::Goto)
    } else if word == "if"@ {
        Some(Keyword::If)
    } else if word == "inline"@ {
        Some(Keyword::Inline)
    } else if word == "int"@ {
        Some(Keyword::Int)
    } else if word == "monitor"@ {
        Some(Keyword::Monitor)
    } else if word == "repeat"@ {
        Some(Keyword::Repeat)
    } else if word == "return"@ {
        Some(Keyword::Return)
    } else if word == "sign"@ {
        Some(Keyword::Sign)
    } else if word == "start"@ {
        Some(Keyword::Start)
    } else if word == "stop"@ {
        Some(Keyword::Stop)
    } else if word == "sub"@ {
        Some(Keyword::Sub)
    } else if word == "switch"@ {
        Some(Keyword::Switch)
    } else if word == "task"@ {
        Some(Keyword::Task)
    } else if word == "true"@ {
        Some(Keyword::True)
    } else if word == "void"@ {
        Some(Keyword::Void)
    } else if word == "while"@ {
        Some(Keyword::While)
    } else {
        None
    }
}

/// Whether a character is white space of ASCII: space, tab, line feed,
/// form feed or carriage return.
pub open spec fn is_blank(c: char) -> bool {
    c == ' ' || c == '\t' || c == '\n' || c == '\x0c' || c == '\r'
}

/// Whether a character is a letter of ASCII.
pub open spec fn is_letter(c: char) -> bool {
    ('a' <= c <= 'z') || ('A' <= c <= 'Z')
}

/// Whether a character is a digit of ASCII.
pub open spec fn is_digit(c: char) -> bool {
    '0' <= c <= '9'
}

/// The runs of characters that the lexer takes as one.
#[derive(Clone, Copy, Debug, PartialEq, Eq, Structural)]
pub enum CharClass {
    /// White space.
    Blank,
    /// Letters, digits and `_`: what a word is made of.
    Word,
    /// Digits.
    Digit,
    /// Anything but a line feed: what a comment is made of.
    Comment,
}

/// Whether a character belongs to a class.
pub open spec fn belongs(c: char, class: CharClass) -> bool {
    match class {
        CharClass::Blank => is_blank(c),
        CharClass::Word => is_letter(c) || is_digit(c) || c == '_',
        CharClass::Digit => is_digit(c),
        CharClass::Comment => c != '\n',
    }
}

/// The first position at or after `from` whose character does not belong
/// to the class, or the length of the source.
pub open spec fn run_end(chars: Seq<char>, from: int, class: CharClass) -> int
    decreases chars.len() - from,
{
    if 0 <= from < chars.len() && belongs(chars[from], class) {
        run_end(chars, from + 1, class)
    } else {
        from
    }
}

/// The token that a character is by itself, if it is one.
pub open spec fn single(c: char) -> Option<TokenKindView> {
    if c == '(' {
        Some(TokenKindView::LeftParen)
    } else if c == ')' {
        Some(TokenKindView::RightParen)
    } else if c == '[' {
        Some(TokenKindView::LeftBracket)
    } else if c == ']' {
        Some(TokenKindView::RightBracket)
    } else if c == '{' {
        Some(TokenKindView::LeftBrace)
    } else if c == '}' {
        Some(TokenKindView::RightBrace)
    } else if c == '+' {
        Some(TokenKindView::Plus)
    } else if c == '-' {
        Some(TokenKindView::Minus)
    } else if c == '*' {
        Some(TokenKindView::Asterisk)
    } else if c == '.' {
        Some(TokenKindView::Dot)
    } else if c == ',' {
        Some(TokenKindView::Comma)
    } else if c == ';' {
        Some(TokenKindView::Semicolon)
    } else if c == '#' {
        Some(TokenKindView::Hash)
    } else {
        None
    }
}

/// What the lexer makes of the source at a position.
pub struct Step {
    /// A token, nothing for white space and comments, or an error.
    pub outcome: Result<Option<TokenView>, ErrorView>,
    /// Where the lexer goes on.
    pub next: int,
    /// Whether a comment was passed.
    pub comment: bool,
}

/// A step that yields a token of a kind and a length.
pub open spec fn token_step(kind: TokenKindView, pos: int, length: int) -> Step {
    Step {
        outcome: Ok(
            Some(TokenView { kind, span: Span { start: pos as usize, length: length as usize } }),
        ),
        next: pos + length,
        comment: false,
    }
}

/// A step that yields nothing and goes on at `next`.
pub open spec fn skip_step(next: int, comment: bool) -> Step {
    Step { outcome: Ok(None), next, comment }
}

/// A step that fails on the character at `pos`.
pub open spec fn error_step(
    chars: Seq<char>,
    kind: ErrorKindView,
    pos: int,
    length: int,
) -> Step {
    Step {
        outcome: Err(
            ErrorView {
                kind,
                span: Span { start: pos as usize, length: length as usize },
                raw: chars,
            },
        ),
        next: pos + 1,
        comment: false,
    }
}

/// What is said of a character that starts no token.
pub open spec fn unexpected_character(c: char) -> Seq<char> {
    "Unexpected character `"@ + seq![c] + "`"@
}

/// What the lexer makes of the source at a position within it.
///
/// * A bracket, `+`, `-`, `*`, `.`, `,`, `;` or `#` is a token.
/// * `/` is a token, unless another `/` follows: then a comment runs
///   through the end of the line. A `/` that ends the source is an error.
/// * `=`, `<` and `>` are tokens, or the start of `==`, `<<`, `<=`, `>>`
///   and `>=`.
/// * White space is passed without a token.
/// * A letter or `_` starts a word, which is a keyword or an identifier.
/// * A digit starts a number.
/// * Any other character is an error of one character.
pub open spec fn lex_at(chars: Seq<char>, pos: int) -> Step {
    let c = chars[pos];
    let follows = |d: char| pos + 1 < chars.len() && chars[pos + 1] == d;
    if single(c) is Some {
        token_step(single(c)->0, pos, 1)
    } else if c == '/' {
        if pos + 1 >= chars.len() {
            error_step(chars, ErrorKindView::Eof, pos, 0)
        } else if follows('/') {
            let end = run_end(chars, pos + 1, CharClass::Comment);
            if end < chars.len() {
                skip_step(end + 1, true)
            } else {
                skip_step(end, true)
            }
        } else {
            token_step(TokenKindView::Divide, pos, 1)
        }
    } else if c == '=' {
        if follows('=') {
            token_step(TokenKindView::EqEq, pos, 2)
        } else {
            token_step(TokenKindView::Eq, pos, 1)
        }
    } else if c == '<' {
        if follows('<') {
            token_step(TokenKindView::LShift, pos, 2)
        } else if follows('=') {
            token_step(TokenKindView::LtEq, pos, 2)
        } else {
            token_step(TokenKindView::Lt, pos, 1)
        }
    } else if c == '>' {
        if follows('>') {
            token_step(TokenKindView::RShift, pos, 2)
        } else if follows('=') {
            token_step(TokenKindView::GtEq, pos, 2)
        } else {
            token_step(TokenKindView::Gt, pos, 1)
        }
    } else if is_blank(c) {
        skip_step(run_end(chars, pos + 1, CharClass::Blank), false)
    } else if is_letter(c) || c == '_' {
        let end = run_end(chars, pos + 1, CharClass::Word);
        let word = chars.subrange(pos, end);
        match keyword_of(word) {
            Some(keyword) => token_step(TokenKindView::Kw(keyword), pos, end - pos),
            None => token_step(TokenKindView::Ident(word), pos, end - pos),
        }
    } else if is_digit(c) {
        let end = run_end(chars, pos + 1, CharClass::Digit);
        token_step(TokenKindView::LiteralInt(chars.subrange(pos, end)), pos, end - pos)
    } else {
        error_step(chars, ErrorKindView::Syntax(unexpected_character(c)), pos, 1)
    }
}

/// The outcome of a step as a mathematical value.
pub open spec fn outcome_view(r: Result<Option<Token>, Error>) -> Result<
    Option<TokenView>,
    ErrorView,
> {
    match r {
        Ok(Some(token)) => Ok(Some(token@)),
        Ok(None) => Ok(None),
        Err(error) => Err(error@),
    }
}

/// A run ends at or behind its start, within the source, and holds only
/// characters of its class.
pub proof fn lemma_run_end(chars: Seq<char>, from: int, class: CharClass)
    requires
        0 <= from <= chars.len(),
    ensures
        from <= run_end(chars, from, class) <= chars.len(),
        forall|i: int|
            from <= i < run_end(chars, from, class) ==> belongs(#[trigger] chars[i], class),
        run_end(chars, from, class) < chars.len() ==> !belongs(
            chars[run_end(chars, from, class)],
            class,
        ),
    decreases chars.len() - from,
{
    if from < chars.len() && belongs(chars[from], class) {
        lemma_run_end(chars, from + 1, class);
    }
}

/// Whether a character belongs to a class.
pub fn in_class(c: char, class: CharClass) -> (r: bool)
    ensures
        r == belongs(c, class),
{
    match class {
        CharClass::Blank => c == ' ' || c == '\t' || c == '\n' || c == '\x0c' || c == '\r',
        CharClass::Word => ('a' <= c && c <= 'z') || ('A' <= c && c <= 'Z') || ('0' <= c && c
            <= '9') || c == '_',
        CharClass::Digit => '0' <= c && c <= '9',
        CharClass::Comment => c != '\n',
    }
}

/// Finds where a run of characters of a class ends.
pub fn scan(chars: &[char], from: usize, class: CharClass) -> (end: usize)
    requires
        from <= chars@.len(),
    ensures
        end == run_end(chars@, from as int, class),
        from <= end <= chars@.len(),
{
    let mut end = from;
    while end < chars.len() && in_class(chars[end], class)
        invariant
            from <= end <= chars@.len(),
            run_end(chars@, from as int, class) == run_end(chars@, end as int, class),
        decreases chars@.len() - end,
    {
        end += 1;
    }
    end
}

/// Whether characters spell a word.
fn spells(chars: &[char], word: &str) -> (r: bool)
    ensures
        r == (chars@ == word@),
{
    let len = word.unicode_len();
    if len != chars.len() {
        return false;
    }
    let mut i: usize = 0;
    while i < len
        invariant
            i <= len,
            len == chars@.len(),
            len == word@.len(),
            forall|k: int| 0 <= k < i ==> chars@[k] == word@[k],
        decreases len - i,
    {
        if chars[i] != word.get_char(i) {
            return false;
        }
        i += 1;
    }
    assert(chars@ =~= word@);
    true
}

/// The keyword that a word is, if it is one.
pub fn keyword(word: &[char]) -> (r: Option<Keyword>)
    ensures
        r == keyword_of(word@),
{
    if spells(word, "_event_src") {
        Some(Keyword::EventSrc)
    } else if spells(word, "__nolist") {
        Some(Keyword::Nolist)
    } else if spells(word, "__res") {
        Some(Keyword::Res)
    } else if spells(word, "__sensor") {
        Some(Keyword::Sensor)
    } else if spells(word, "__taskid") {
        Some(Keyword::Taskid)
    } else if spells(word, "__type") {
        Some(Keyword::Type)
    } else if spells(word, "abs") {
        Some(Keyword::Abs)
    } else if spells(word, "acquire") {
        Some(Keyword::Acquire)
    } else if spells(word, "asm") {
        Some(Keyword::Asm)
    } else if spells(word, "break") {
        Some(Keyword::Break)
    } else if spells(word, "case") {
        Some(Keyword::Case)
    } else if spells(word, "catch") {
        Some(Keyword::Catch)
    } else if spells(word, "const") {
        Some(Keyword::Const)
    } else if spells(word, "continue") {
        Some(Keyword::Continue)
    } else if spells(word, "default") {
        Some(Keyword::Default)
    } else if spells(word, "do") {
        Some(Keyword::Do)
    } else if spells(word, "else") {
        Some(Keyword::Else)
    } else if spells(word, "false") {
        Some(Keyword::False)
    } else if spells(word, "for") {
        Some(Keyword::For)
    } else if spells(word, "goto") {
        Some(Keyword::Goto)
    } else if spells(word, "if") {
        Some(Keyword::If)
    } else if spells(word, "inline") {
        Some(Keyword::Inline)
    } else if spells(word, "int") {
        Some(Keyword::Int)
    } else if spells(word, "monitor") {
        Some(Keyword::Monitor)
    } else if spells(word, "repeat") {
        Some(Keyword::Repeat)
    } else if spells(word, "return") {
        Some(Keyword::Return)
    } else if spells(word, "sign") {
        Some(Keyword::Sign)
    } else if spells(word, "start") {
        Some(Keyword::Start)
    } else if spells(word, "stop") {
        Some(Keyword::Stop)
    } else if spells(word, "sub") {
        Some(Keyword::Sub)
    } else if spells(word, "switch") {
        Some(Keyword::Switch)
    } else if spells(word, "task") {
        Some(Keyword::Task)
    } else if spells(word, "true") {
        Some(Keyword::True)
    } else if spells(word, "void") {
        Some(Keyword::Void)
    } else if spells(word, "while") {
        Some(Keyword::While)
    } else {
        None
    }
}

impl Keyword {
    /// The keyword as the source spells it.
    pub open spec fn word(self) -> Seq<char> {
        match self {
            Keyword::EventSrc => "_event_src"@,
            Keyword::Nolist => "__nolist"@,
            Keyword::Res => "__res"@,
            Keyword::Sensor => "__sensor"@,
            Keyword::Taskid => "__taskid"@,
            Keyword::Type => "__type"@,
            Keyword::Abs => "abs"@,
            Keyword::Acquire => "acquire"@,
            Keyword::Asm => "asm"@,
            Keyword::Break => "break"@,
            Keyword::Case => "case"@,
            Keyword::Catch => "catch"@,
            Keyword::Const => "const"@,
            Keyword::Continue => "continue"@,
            Keyword::Default => "default"@,
            Keyword::Do => "do"@,
            Keyword::Else => "else"@,
            Keyword::False => "false"@,
            Keyword::For => "for"@,
            Keyword::Goto => "goto"@,
            Keyword::If => "if"@,
            Keyword::Inline => "inline"@,
            Keyword::Int => "int"@,
            Keyword::Monitor => "monitor"@,
            Keyword::Repeat => "repeat"@,
            Keyword::Return => "return"@,
            Keyword::Sign => "sign"@,
            Keyword::Start => "start"@,
            Keyword::Stop => "stop"@,
            Keyword::Sub => "sub"@,
            Keyword::Switch => "switch"@,
            Keyword::Task => "task"@,
            Keyword::True => "true"@,
            Keyword::Void => "void"@,
            Keyword::While => "while"@,
        }
    }

    /// The keyword as the source spells it.
    pub fn as_str(&self) -> (r: &'static str)
        ensures
            r@ == self.word(),
    {
        match self {
            Keyword::EventSrc => "_event_src",
            Keyword::Nolist => "__nolist",
            Keyword::Res => "__res",
            Keyword::Sensor => "__sensor",
            Keyword::Taskid => "__taskid",
            Keyword::Type => "__type",
            Keyword::Abs => "abs",
            Keyword::Acquire => "acquire",
            Keyword::Asm => "asm",
            Keyword::Break => "break",
            Keyword::Case => "case",
            Keyword::Catch => "catch",
            Keyword::Const => "const",
            Keyword::Continue => "continue",
            Keyword::Default => "default",
            Keyword::Do => "do",
            Keyword::Else => "else",
            Keyword::False => "false",
            Keyword::For => "for",
            Keyword::Goto => "goto",
            Keyword::If => "if",
            Keyword::Inline => "inline",
            Keyword::Int => "int",
            Keyword::Monitor => "monitor",
            Keyword::Repeat => "repeat",
            Keyword::Return => "return",
            Keyword::Sign => "sign",
            Keyword::Start => "start",
            Keyword::Stop => "stop",
            Keyword::Sub => "sub",
            Keyword::Switch => "switch",
            Keyword::Task => "task",
            Keyword::True => "true",
            Keyword::Void => "void",
            Keyword::While => "while",
        }
    }

    /// The name of the keyword in this library.
    pub open spec fn name(self) -> Seq<char> {
        match self {
            Keyword::EventSrc => "EventSrc"@,
            Keyword::Nolist => "Nolist"@,
            Keyword::Res => "Res"@,
            Keyword::Sensor => "Sensor"@,
            Keyword::Taskid => "Taskid"@,
            Keyword::Type => "Type"@,
            Keyword::Abs => "Abs"@,
            Keyword::Acquire => "Acquire"@,
            Keyword::Asm => "Asm"@,
            Keyword::Break => "Break"@,
            Keyword::Case => "Case"@,
            Keyword::Catch => "Catch"@,
            Keyword::Const => "Const"@,
            Keyword::Continue => "Continue"@,
            Keyword::Default => "Default"@,
            Keyword::Do => "Do"@,
            Keyword::Else => "Else"@,
            Keyword::False => "False"@,
            Keyword::For => "For"@,
            Keyword::Goto => "Goto"@,
            Keyword::If => "If"@,
            Keyword::Inline => "Inline"@,
            Keyword::Int => "Int"@,
            Keyword::Monitor => "Monitor"@,
            Keyword::Repeat => "Repeat"@,
            Keyword::Return => "Return"@,
            Keyword::Sign => "Sign"@,
            Keyword::Start => "Start"@,
            Keyword::Stop => "Stop"@,
            Keyword::Sub => "Sub"@,
            Keyword::Switch => "Switch"@,
            Keyword::Task => "Task"@,
            Keyword::True => "True"@,
            Keyword::Void => "Void"@,
            Keyword::While => "While"@,
        }
    }

    /// The name of the keyword in this library.
    pub fn to_string(&self) -> (r: String)
        ensures
            r@ == self.name(),
    {
        match self {
            Keyword::EventSrc => String::from_str("EventSrc"),
            Keyword::Nolist => String::from_str("Nolist"),
            Keyword::Res => String::from_str("Res"),
            Keyword::Sensor => String::from_str("Sensor"),
            Keyword::Taskid => String::from_str("Taskid"),
            Keyword::Type => String::from_str("Type"),
            Keyword::Abs => String::from_str("Abs"),
            Keyword::Acquire => String::from_str("Acquire"),
            Keyword::Asm => String::from_str("Asm"),
            Keyword::Break => String::from_str("Break"),
            Keyword::Case => String::from_str("Case"),
            Keyword::Catch => String::from_str("Catch"),
            Keyword::Const => String::from_str("Const"),
            Keyword::Continue => String::from_str("Continue"),
            Keyword::Default => String::from_str("Default"),
            Keyword::Do => String::from_str("Do"),
            Keyword::Else => String::from_str("Else"),
            Keyword::False => String::from_str("False"),
            Keyword::For => String::from_str("For"),
            Keyword::Goto => String::from_str("Goto"),
            Keyword::If => String::from_str("If"),
            Keyword::Inline => String::from_str("Inline"),
            Keyword::Int => String::from_str("Int"),
            Keyword::Monitor => String::from_str("Monitor"),
            Keyword::Repeat => String::from_str("Repeat"),
            Keyword::Return => String::from_str("Return"),
            Keyword::Sign => String::from_str("Sign"),
            Keyword::Start => String::from_str("Start"),
            Keyword::Stop => String::from_str("Stop"),
            Keyword::Sub => String::from_str("Sub"),
            Keyword::Switch => String::from_str("Switch"),
            Keyword::Task => String::from_str("Task"),
            Keyword::True => String::from_str("True"),
            Keyword::Void => String::from_str("Void"),
            Keyword::While => String::from_str("While"),
        }
    }
}

/// How a character is shown between double quotes: a backslash before a
/// double quote or a backslash, `\n`, `\r` and `\t` for line feed, carriage
/// return and tab, any other character as it is.
pub open spec fn escaped_char(c: char) -> Seq<char> {
    if c == '"' {
        seq!['\\', '"']
    } else if c == '\\' {
        seq!['\\', '\\']
    } else if c == '\n' {
        seq!['\\', 'n']
    } else if c == '\r' {
        seq!['\\', 'r']
    } else if c == '\t' {
        seq!['\\', 't']
    } else {
        seq![c]
    }
}

/// The escaped form of every character, in order.
pub open spec fn escaped_chars(text: Seq<char>) -> Seq<char>
    decreases text.len(),
{
    if text.len() == 0 {
        Seq::empty()
    } else {
        escaped_chars(text.drop_last()) + escaped_char(text.last())
    }
}

/// A text between double quotes, escaped.
pub open spec fn quoted_text(text: Seq<char>) -> Seq<char> {
    seq!['"'] + escaped_chars(text) + seq!['"']
}

/// Appends a text between double quotes, escaped.
fn push_quoted_text(out: &mut String, text: &str)
    ensures
        final(out)@ == old(out)@ + quoted_text(text@),
{
    out.push('"');
    let ghost opened = out@;
    assert(out@ =~= opened + escaped_chars(text@.take(0)));
    for c in it: text.chars()
        invariant
            it.seq() == text@,
            out@ == opened + escaped_chars(text@.take(it.index() as int)),
    {
        proof {
            let next = text@.take(it.index() + 1);
            assert(next.drop_last() =~= text@.take(it.index() as int));
            assert(next.last() == c);
        }
        let ghost before = out@;
        if c == '"' {
            out.push('\\');
            out.push('"');
        } else if c == '\\' {
            out.push('\\');
            out.push('\\');
        } else if c == '\n' {
            out.push('\\');
            out.push('n');
        } else if c == '\r' {
            out.push('\\');
            out.push('r');
        } else if c == '\t' {
            out.push('\\');
            out.push('t');
        } else {
            out.push(c);
        }
        assert(out@ =~= before + escaped_char(c));
        assert(out@ =~= opened + escaped_chars(text@.take(it.index() + 1)));
    }
    assert(text@.take(text@.len() as int) =~= text@);
    out.push('"');
    assert(out@ =~= old(out)@ + quoted_text(text@));
}

impl TokenKindView {
    /// The kind as an error message shows it: its name, and for a number,
    /// an identifier or a keyword what it holds, in round brackets.
    pub open spec fn text(self) -> Seq<char> {
        match self {
            TokenKindView::LeftParen => "LeftParen"@,
            TokenKindView::RightParen => "RightParen"@,
            TokenKindView::LeftBracket => "LeftBracket"@,
            TokenKindView::RightBracket => "RightBracket"@,
            TokenKindView::LeftBrace => "LeftBrace"@,
            TokenKindView::RightBrace => "RightBrace"@,
            TokenKindView::Plus => "Plus"@,
            TokenKindView::Minus => "Minus"@,
            TokenKindView::Asterisk => "Asterisk"@,
            TokenKindView::Dot => "Dot"@,
            TokenKindView::Comma => "Comma"@,
            TokenKindView::Divide => "Divide"@,
            TokenKindView::Eq => "Eq"@,
            TokenKindView::EqEq => "EqEq"@,
            TokenKindView::Lt => "Lt"@,
            TokenKindView::LtEq => "LtEq"@,
            TokenKindView::Gt => "Gt"@,
            TokenKindView::GtEq => "GtEq"@,
            TokenKindView::LShift => "LShift"@,
            TokenKindView::RShift => "RShift"@,
            TokenKindView::Semicolon => "Semicolon"@,
            TokenKindView::Hash => "Hash"@,
            TokenKindView::LiteralInt(digits) => "LiteralInt("@ + quoted_text(digits) + ")"@,
            TokenKindView::Ident(name) => "Ident("@ + quoted_text(name) + ")"@,
            TokenKindView::Kw(keyword) => "Kw("@ + keyword.name() + ")"@,
        }
    }
}

impl<'src> TokenKind<'src> {
    /// The kind as an error message shows it.
    pub fn to_string(&self) -> (r: String)
        ensures
            r@ == self@.text(),
    {
        match self {
            TokenKind::LeftParen => String::from_str("LeftParen"),
            TokenKind::RightParen => String::from_str("RightParen"),
            TokenKind::LeftBracket => String::from_str("LeftBracket"),
            TokenKind::RightBracket => String::from_str("RightBracket"),
            TokenKind::LeftBrace => String::from_str("LeftBrace"),
            TokenKind::RightBrace => String::from_str("RightBrace"),
            TokenKind::Plus => String::from_str("Plus"),
            TokenKind::Minus => String::from_str("Minus"),
            TokenKind::Asterisk => String::from_str("Asterisk"),
            TokenKind::Dot => String::from_str("Dot"),
            TokenKind::Comma => String::from_str("Comma"),
            TokenKind::Divide => String::from_str("Divide"),
            TokenKind::Eq => String::from_str("Eq"),
            TokenKind::EqEq => String::from_str("EqEq"),
            TokenKind::Lt => String::from_str("Lt"),
            TokenKind::LtEq => String::from_str("LtEq"),
            TokenKind::Gt => String::from_str("Gt"),
            TokenKind::GtEq => String::from_str("GtEq"),
            TokenKind::LShift => String::from_str("LShift"),
            TokenKind::RShift => String::from_str("RShift"),
            TokenKind::Semicolon => String::from_str("Semicolon"),
            TokenKind::Hash => String::from_str("Hash"),
            TokenKind::LiteralInt(digits) => {
                let mut out = String::from_str("LiteralInt(");
                push_quoted_text(&mut out, digits);
                out.append(")");
                out
            },
            TokenKind::Ident(name) => {
                let mut out = String::from_str("Ident(");
                push_quoted_text(&mut out, name);
                out.append(")");
                out
            },
            TokenKind::Kw(keyword) => {
                let mut out = String::from_str("Kw(");
                let name = keyword.to_string();
                out.append(name.as_str());
                out.append(")");
                out
            },
        }
    }

    /// Whether two kinds are the same, in what they hold as well.
    pub fn same(&self, other: &TokenKind) -> (r: bool)
        ensures
            r == (self@ == other@),
    {
        match (self, other) {
            (TokenKind::LeftParen, TokenKind::LeftParen) => true,
            (TokenKind::RightParen, TokenKind::RightParen) => true,
            (TokenKind::LeftBracket, TokenKind::LeftBracket) => true,
            (TokenKind::RightBracket, TokenKind::RightBracket) => true,
            (TokenKind::LeftBrace, TokenKind::LeftBrace) => true,
            (TokenKind::RightBrace, TokenKind::RightBrace) => true,
            (TokenKind::Plus, TokenKind::Plus) => true,
            (TokenKind::Minus, TokenKind::Minus) => true,
            (TokenKind::Asterisk, TokenKind::Asterisk) => true,
            (TokenKind::Dot, TokenKind::Dot) => true,
            (TokenKind::Comma, TokenKind::Comma) => true,
            (TokenKind::Divide, TokenKind::Divide) => true,
            (TokenKind::Eq, TokenKind::Eq) => true,
            (TokenKind::EqEq, TokenKind::EqEq) => true,
            (TokenKind::Lt, TokenKind::Lt) => true,
            (TokenKind::LtEq, TokenKind::LtEq) => true,
            (TokenKind::Gt, TokenKind::Gt) => true,
            (TokenKind::GtEq, TokenKind::GtEq) => true,
            (TokenKind::LShift, TokenKind::LShift) => true,
            (TokenKind::RShift, TokenKind::RShift) => true,
            (TokenKind::Semicolon, TokenKind::Semicolon) => true,
            (TokenKind::Hash, TokenKind::Hash) => true,
            (TokenKind::LiteralInt(a), TokenKind::LiteralInt(b)) => same_text(a, b),
            (TokenKind::Ident(a), TokenKind::Ident(b)) => same_text(a, b),
            (TokenKind::Kw(a), TokenKind::Kw(b)) => *a == *b,
            _ => false,
        }
    }
}

/// Whether two strings hold the same characters.
fn same_text(a: &str, b: &str) -> (r: bool)
    ensures
        r == (a@ == b@),
{
    let chars = chars_of(a);
    spells(chars.as_slice(), b)
}

impl<'src> Token<'src> {
    /// Reads one token of the source at `*pos` and moves the position
    /// behind it. White space and comments are passed and yield nothing;
    /// a comment also counts a line. `chars` are the characters of `raw`.
    /// At the end of the source there is nothing to read.
    pub fn parse(raw: &'src str, chars: &[char], pos: &mut usize, line: &mut usize) -> (r: Result<
        Option<Self>,
        Error,
    >)
        requires
            chars@ == raw@,
            *old(line) < usize::MAX,
        ensures
            *old(pos) < chars@.len() ==> {
                let step = lex_at(chars@, *old(pos) as int);
                &&& outcome_view(r) == step.outcome
                &&& *final(pos) == step.next
                &&& *old(pos) < *final(pos) <= chars@.len()
                &&& *final(line) == if step.comment {
                    *old(line) + 1
                } else {
                    *old(line) as int
                }
            },
            *old(pos) >= chars@.len() ==> {
                &&& r matches Err(error)
                &&& error@ == (ErrorView {
                    kind: ErrorKindView::Eof,
                    span: Span { start: 0, length: 0 },
                    raw: raw@,
                })
                &&& *final(pos) == *old(pos)
                &&& *final(line) == *old(line)
            },
    {
        let start = *pos;
        if start >= chars.len() {
            return Err(Error::new(0, 0, ErrorKind::Eof, String::from_str(raw)));
        }
        let chr = chars[start];
        let peek = if start + 1 < chars.len() {
            Some(chars[start + 1])
        } else {
            None
        };
        let mut span_length: usize = 1;
        let kind = if chr == '(' {
            TokenKind::LeftParen
        } else if chr == ')' {
            TokenKind::RightParen
        } else if chr == '[' {
            TokenKind::LeftBracket
        } else if chr == ']' {
            TokenKind::RightBracket
        } else if chr == '{' {
            TokenKind::LeftBrace
        } else if chr == '}' {
            TokenKind::RightBrace
        } else if chr == '+' {
            TokenKind::Plus
        } else if chr == '-' {
            TokenKind::Minus
        } else if chr == '*' {
            TokenKind::Asterisk
        } else if chr == '.' {
            TokenKind::Dot
        } else if chr == ',' {
            TokenKind::Comma
        } else if chr == '/' {
            // either a comment or a divide, depending on the next char
            match peek {
                None => {
                    *pos = start + 1;
                    return Err(Error::new(start, 0, ErrorKind::Eof, String::from_str(raw)));
                },
                Some('/') => {
                    let end = scan(chars, start + 1, CharClass::Comment);
                    *pos = if end < chars.len() {
                        end + 1
                    } else {
                        end
                    };
                    *line += 1;
                    return Ok(None);
                },
                Some(_) => TokenKind::Divide,
            }
        } else if chr == '=' {
            // either an = or an ==
            match peek {
                Some('=') => {
                    span_length = 2;
                    TokenKind::EqEq
                },
                _ => TokenKind::Eq,
            }
        } else if chr == '<' {
            // can be < or << or <=
            match peek {
                Some('<') => {
                    span_length = 2;
                    TokenKind::LShift
                },
                Some('=') => {
                    span_length = 2;
                    TokenKind::LtEq
                },
                _ => TokenKind::Lt,
            }
        } else if chr == '>' {
            // can be > or >> or >=
            match peek {
                Some('>') => {
                    span_length = 2;
                    TokenKind::RShift
                },
                Some('=') => {
                    span_length = 2;
                    TokenKind::GtEq
                },
                _ => TokenKind::Gt,
            }
        } else if chr == ';' {
            TokenKind::Semicolon
        } else if chr == '#' {
            TokenKind::Hash
        } else if in_class(chr, CharClass::Blank) {
            // consume whitespace until eof or non whitespace
            *pos = scan(chars, start + 1, CharClass::Blank);
            return Ok(None);
        } else if (in_class(chr, CharClass::Word) && !in_class(chr, CharClass::Digit)) {
            // consume ident
            let end = scan(chars, start + 1, CharClass::Word);
            span_length = end - start;
            let word = vstd::slice::slice_subrange(chars, start, end);
            match keyword(word) {
                Some(kw) => TokenKind::Kw(kw),
                None => TokenKind::Ident(raw.substring_char(start, end)),
            }
        } else if in_class(chr, CharClass::Digit) {
            // consume digits
            let end = scan(chars, start + 1, CharClass::Digit);
            span_length = end - start;
            TokenKind::LiteralInt(raw.substring_char(start, end))
        } else {
            let mut message = String::from_str("Unexpected character `");
            message.push(chr);
            message.append("`");
            assert(message@ =~= unexpected_character(chr));
            *pos = start + 1;
            return Err(Error::new(start, 1, ErrorKind::Syntax(message), String::from_str(raw)));
        };
        *pos = start + span_length;
        Ok(Some(Token { kind, span: Span { start, length: span_length } }))
    }
}

/// The tokens and the errors that the lexer makes of the source from a
/// position on, each in the order of the source.
pub open spec fn lex_from(chars: Seq<char>, pos: int) -> (Seq<TokenView>, Seq<ErrorView>)
    decreases chars.len() - pos,
{
    if pos < 0 || pos >= chars.len() {
        (Seq::empty(), Seq::empty())
    } else {
        let step = lex_at(chars, pos);
        if pos < step.next <= chars.len() {
            let rest = lex_from(chars, step.next);
            match step.outcome {
                Ok(Some(token)) => (seq![token] + rest.0, rest.1),
                Ok(None) => rest,
                Err(error) => (rest.0, seq![error] + rest.1),
            }
        } else {
            (Seq::empty(), Seq::empty())
        }
    }
}

/// The tokens of a source.
pub open spec fn tokens_of(chars: Seq<char>) -> Seq<TokenView> {
    lex_from(chars, 0).0
}

/// The errors of a source.
pub open spec fn errors_of(chars: Seq<char>) -> Seq<ErrorView> {
    lex_from(chars, 0).1
}

/// Tokens as mathematical values.
pub open spec fn token_views(tokens: Seq<Token>) -> Seq<TokenView> {
    tokens.map_values(|token: Token| token@)
}

/// Errors as mathematical values.
pub open spec fn error_views(errors: Seq<Error>) -> Seq<ErrorView> {
    errors.map_values(|error: Error| error@)
}

/// Every step of the lexer moves on, and stays within the source.
pub proof fn lemma_step_moves_on(chars: Seq<char>, pos: int)
    requires
        0 <= pos < chars.len(),
    ensures
        pos < lex_at(chars, pos).next <= chars.len(),
{
    lemma_run_end(chars, pos + 1, CharClass::Comment);
    lemma_run_end(chars, pos + 1, CharClass::Blank);
    lemma_run_end(chars, pos + 1, CharClass::Word);
    lemma_run_end(chars, pos + 1, CharClass::Digit);
}

/// The tokens of a source.
pub struct Tokens<'src> {
    raw: &'src str,
    tokens: Vec<Token<'src>>,
}

impl<'src> Tokens<'src> {
    /// The source.
    pub closed spec fn source(&self) -> Seq<char> {
        self.raw@
    }

    /// The tokens, as mathematical values.
    pub closed spec fn view(&self) -> Seq<TokenView> {
        token_views(self.tokens@)
    }

    /// Lexes a source. If any of it is no token, all the errors come back
    /// instead, in the order of the source.
    pub fn new(src: &'src str) -> (r: Result<Self, Vec<Error>>)
        ensures
            match r {
                Ok(tokens) => {
                    &&& errors_of(src@).len() == 0
                    &&& tokens.view() == tokens_of(src@)
                    &&& tokens.source() == src@
                },
                Err(errors) => errors@.len() > 0 && error_views(errors@) == errors_of(src@),
            },
    {
        let chars = chars_of(src);
        let text = chars.as_slice();
        let mut pos: usize = 0;
        let mut line: usize = 0;
        let mut tokens: Vec<Token<'src>> = Vec::new();
        let mut errors: Vec<Error> = Vec::new();
        assert(token_views(tokens@) =~= Seq::<TokenView>::empty());
        assert(error_views(errors@) =~= Seq::<ErrorView>::empty());
        assert(token_views(tokens@) + lex_from(text@, 0).0 =~= lex_from(text@, 0).0);
        assert(error_views(errors@) + lex_from(text@, 0).1 =~= lex_from(text@, 0).1);
        while pos < text.len()
            invariant
                pos <= text@.len(),
                text@ == src@,
                line <= pos,
                tokens_of(text@) == token_views(tokens@) + lex_from(text@, pos as int).0,
                errors_of(text@) == error_views(errors@) + lex_from(text@, pos as int).1,
            decreases text@.len() - pos,
        {
            let ghost step = lex_at(text@, pos as int);
            let ghost rest = lex_from(text@, step.next);
            let ghost had_tokens = tokens@;
            let ghost had_errors = errors@;
            proof {
                lemma_step_moves_on(text@, pos as int);
            }
            match Token::parse(src, text, &mut pos, &mut line) {
                Ok(Some(token)) => {
                    tokens.push(token);
                    assert(token_views(tokens@) =~= token_views(had_tokens).push(token@));
                    assert(token_views(had_tokens) + (seq![token@] + rest.0) =~= token_views(
                        tokens@,
                    ) + rest.0);
                },
                Ok(None) => {},
                Err(error) => {
                    errors.push(error);
                    assert(error_views(errors@) =~= error_views(had_errors).push(error@));
                    assert(error_views(had_errors) + (seq![error@] + rest.1) =~= error_views(
                        errors@,
                    ) + rest.1);
                },
            }
        }
        assert(token_views(tokens@) + Seq::<TokenView>::empty() =~= token_views(tokens@));
        assert(error_views(errors@) + Seq::<ErrorView>::empty() =~= error_views(errors@));
        if errors.len() == 0 {
            Ok(Self { raw: src, tokens })
        } else {
            Err(errors)
        }
    }

    /// A stream over the tokens, from the first.
    pub fn iter<'tokens: 'src>(&'tokens self) -> (stream: TokenStream<'src>)
        ensures
            stream.source() == self.source(),
            stream.remaining() == self.view(),
    {
        let stream = TokenStream { raw: self.raw, tokens: &self.tokens, pos: 0 };
        assert(self.tokens@.skip(0) =~= self.tokens@);
        stream
    }
}

/// A stream of tokens, of which some have been taken.
#[derive(Debug)]
pub struct TokenStream<'src> {
    raw: &'src str,
    tokens: &'src Vec<Token<'src>>,
    pos: usize,
}

/// What is said of a token that is not the expected one.
pub open spec fn expected_message(expected: TokenKindView, got: TokenKindView) -> Seq<char> {
    "Expected `"@ + expected.text() + "`, got `"@ + got.text() + "`"@
}

impl<'src> TokenStream<'src> {
    /// The source.
    pub closed spec fn source(&self) -> Seq<char> {
        self.raw@
    }

    /// The tokens that have not been taken yet.
    pub closed spec fn remaining(&self) -> Seq<TokenView> {
        if self.pos <= self.tokens@.len() {
            token_views(self.tokens@.skip(self.pos as int))
        } else {
            Seq::empty()
        }
    }

    /// The error that is reported where the stream has ended.
    pub open spec fn end_of_file(&self) -> ErrorView {
        ErrorView {
            kind: ErrorKindView::Eof,
            span: Span { start: 0, length: 0 },
            raw: self.source(),
        }
    }

    /// The next token, which stays in the stream.
    pub fn peek(&self) -> (r: Option<&'src Token<'src>>)
        ensures
            match r {
                Some(token) => self.remaining().len() > 0 && token@ == self.remaining()[0],
                None => self.remaining().len() == 0,
            },
    {
        if self.pos < self.tokens.len() {
            Some(&self.tokens[self.pos])
        } else {
            None
        }
    }

    /// Takes the next token, if there is one.
    pub fn next(&mut self) -> (r: Option<&'src Token<'src>>)
        ensures
            final(self).source() == old(self).source(),
            match r {
                Some(token) => {
                    &&& old(self).remaining().len() > 0
                    &&& token@ == old(self).remaining()[0]
                    &&& final(self).remaining() == old(self).remaining().skip(1)
                },
                None => old(self).remaining().len() == 0 && final(self).remaining().len() == 0,
            },
    {
        if self.pos < self.tokens.len() {
            let token = &self.tokens[self.pos];
            assert(self.tokens@.skip(self.pos + 1) =~= self.tokens@.skip(self.pos as int).skip(
                1,
            ));
            assert(token_views(self.tokens@.skip(self.pos as int).skip(1)) =~= token_views(
                self.tokens@.skip(self.pos as int),
            ).skip(1));
            self.pos += 1;
            Some(token)
        } else {
            None
        }
    }

    /// Takes the next token. At the end of the stream that is an error.
    pub fn next_token(&mut self) -> (r: Result<&'src Token<'src>, Error>)
        ensures
            final(self).source() == old(self).source(),
            match r {
                Ok(token) => {
                    &&& old(self).remaining().len() > 0
                    &&& token@ == old(self).remaining()[0]
                    &&& final(self).remaining() == old(self).remaining().skip(1)
                },
                Err(error) => {
                    &&& old(self).remaining().len() == 0
                    &&& final(self).remaining().len() == 0
                    &&& error@ == old(self).end_of_file()
                },
            },
    {
        match self.next() {
            Some(token) => Ok(token),
            None => Err(Error::new(0, 0, ErrorKind::Eof, String::from_str(self.raw))),
        }
    }

    /// Takes the next token, which must be of the expected kind.
    pub fn consume(&mut self, expected: TokenKind) -> (r: Result<(), Error>)
        ensures
            final(self).source() == old(self).source(),
            old(self).remaining().len() > 0 ==> final(self).remaining() == old(
                self,
            ).remaining().skip(1),
            match r {
                Ok(_) => old(self).remaining().len() > 0 && old(self).remaining()[0].kind
                    == expected@,
                Err(error) => if old(self).remaining().len() == 0 {
                    error@ == old(self).end_of_file()
                } else {
                    let token = old(self).remaining()[0];
                    &&& token.kind != expected@
                    &&& error@ == (ErrorView {
                        kind: ErrorKindView::Syntax(expected_message(expected@, token.kind)),
                        span: token.span,
                        raw: old(self).source(),
                    })
                },
            },
    {
        let tok = self.next_token()?;
        if tok.kind.same(&expected) {
            Ok(())
        } else {
            let span = tok.span;
            let mut message = String::from_str("Expected `");
            let wanted = expected.to_string();
            message.append(wanted.as_str());
            message.append("`, got `");
            let got = tok.kind.to_string();
            message.append(got.as_str());
            message.append("`");
            assert(message@ =~= expected_message(expected@, tok.kind@));
            Err(
                Error::new(
                    span.start,
                    span.length,
                    ErrorKind::Syntax(message),
                    String::from_str(self.raw),
                ),
            )
        }
    }

    /// Whether all tokens have been taken.
    pub fn eof(&self) -> (r: bool)
        ensures
            r == (self.remaining().len() == 0),
    {
        self.peek().is_none()
    }

    /// The source.
    pub fn raw(&self) -> (r: &'src str)
        ensures
            r@ == self.source(),
    {
        self.raw
    }
}

impl Error {
    /// A syntax error at a token of a stream.
    pub fn from_token(token: &Token, tokens: &TokenStream, err: String) -> (error: Self)
        ensures
            error@ == (ErrorView {
                kind: ErrorKindView::Syntax(err@),
                span: token.span,
                raw: tokens.source(),
            }),
    {
        Self::new(
            token.span.start,
            token.span.length,
            ErrorKind::Syntax(err),
            String::from_str(tokens.raw()),
        )
    }
}

} // verus!
