use rcx::nqc::ast::{BinaryOp, Expr, Stmt};
use rcx::nqc::error::{Error, ErrorKind};
use rcx::nqc::lexer::{
    keyword, scan, CharClass, Keyword, Token, TokenKind, TokenStream, Tokens,
};
use rcx::nqc::Span;

fn kinds<'src>(mut stream: TokenStream<'src>) -> Vec<TokenKind<'src>> {
    let mut out = Vec::new();
    while let Some(token) = stream.next() {
        out.push(token.kind.clone());
    }
    out
}

#[test]
fn mod_basic_tokens() {
    let src = "()[]{}+-*/===;.<<>><=>=while<>#_some_var
        //this is a comment
        //another comment";
    let tokens = Tokens::new(src).unwrap();
    let stream = kinds(tokens.iter());
    let expected = &[
        TokenKind::LeftParen,
        TokenKind::RightParen,
        TokenKind::LeftBracket,
        TokenKind::RightBracket,
        TokenKind::LeftBrace,
        TokenKind::RightBrace,
        TokenKind::Plus,
        TokenKind::Minus,
        TokenKind::Asterisk,
        TokenKind::Divide,
        TokenKind::EqEq,
        TokenKind::Eq,
        TokenKind::Semicolon,
        TokenKind::Dot,
        TokenKind::LShift,
        TokenKind::RShift,
        TokenKind::LtEq,
        TokenKind::GtEq,
        TokenKind::Kw(Keyword::While),
        TokenKind::Lt,
        TokenKind::Gt,
        TokenKind::Hash,
        TokenKind::Ident("_some_var"),
    ];
    assert_eq!(expected, stream.as_slice());
}

#[test]
fn mod_simple_prog() {
    let src = "task main() {
            SetPower(OUT_A, 50);
            OnFwd(OUT_A);
            Wait(100);
            Off(OUT_A);
        }";
    let tokens = Tokens::new(src).unwrap();
    let stream = kinds(tokens.iter());
    let expected = &[
        TokenKind::Kw(Keyword::Task),
        TokenKind::Ident("main"),
        TokenKind::LeftParen,
        TokenKind::RightParen,
        TokenKind::LeftBrace,
        TokenKind::Ident("SetPower"),
        TokenKind::LeftParen,
        TokenKind::Ident("OUT_A"),
        TokenKind::Comma,
        TokenKind::LiteralInt("50"),
        TokenKind::RightParen,
        TokenKind::Semicolon,
        TokenKind::Ident("OnFwd"),
        TokenKind::LeftParen,
        TokenKind::Ident("OUT_A"),
        TokenKind::RightParen,
        TokenKind::Semicolon,
        TokenKind::Ident("Wait"),
        TokenKind::LeftParen,
        TokenKind::LiteralInt("100"),
        TokenKind::RightParen,
        TokenKind::Semicolon,
        TokenKind::Ident("Off"),
        TokenKind::LeftParen,
        TokenKind::Ident("OUT_A"),
        TokenKind::RightParen,
        TokenKind::Semicolon,
        TokenKind::RightBrace,
    ];
    assert_eq!(expected, stream.as_slice());
}

fn spans(src: &str) -> Vec<(usize, usize)> {
    let tokens = Tokens::new(src).unwrap();
    let mut stream = tokens.iter();
    let mut out = Vec::new();
    while let Some(token) = stream.next() {
        out.push((token.span.start, token.span.length));
    }
    out
}

#[test]
fn spans_count_characters() {
    assert_eq!(spans("a == bc"), vec![(0, 1), (2, 2), (5, 2)]);
    assert_eq!(spans("<<=>"), vec![(0, 2), (2, 1), (3, 1)]);
    assert_eq!(spans("  while1 12 "), vec![(2, 6), (9, 2)]);
    // a comment with characters of several bytes does not shift what follows
    assert_eq!(spans("// é ü\nx"), vec![(7, 1)]);
    let src = "// é ü\nxy";
    let tokens = Tokens::new(src).unwrap();
    assert_eq!(kinds(tokens.iter()), vec![TokenKind::Ident("xy")]);
}

#[test]
fn every_keyword_is_recognised() {
    for (word, expected) in [
        ("_event_src", Keyword::EventSrc),
        ("__nolist", Keyword::Nolist),
        ("__res", Keyword::Res),
        ("__sensor", Keyword::Sensor),
        ("__taskid", Keyword::Taskid),
        ("__type", Keyword::Type),
        ("abs", Keyword::Abs),
        ("acquire", Keyword::Acquire),
        ("asm", Keyword::Asm),
        ("break", Keyword::Break),
        ("case", Keyword::Case),
        ("catch", Keyword::Catch),
        ("const", Keyword::Const),
        ("continue", Keyword::Continue),
        ("default", Keyword::Default),
        ("do", Keyword::Do),
        ("else", Keyword::Else),
        ("false", Keyword::False),
        ("for", Keyword::For),
        ("goto", Keyword::Goto),
        ("if", Keyword::If),
        ("inline", Keyword::Inline),
        ("int", Keyword::Int),
        ("monitor", Keyword::Monitor),
        ("repeat", Keyword::Repeat),
        ("return", Keyword::Return),
        ("sign", Keyword::Sign),
        ("start", Keyword::Start),
        ("stop", Keyword::Stop),
        ("sub", Keyword::Sub),
        ("switch", Keyword::Switch),
        ("task", Keyword::Task),
        ("true", Keyword::True),
        ("void", Keyword::Void),
        ("while", Keyword::While),
    ] {
        let chars: Vec<char> = word.chars().collect();
        assert_eq!(keyword(&chars), Some(expected), "{word}");
        let tokens = Tokens::new(word).unwrap();
        assert_eq!(kinds(tokens.iter()), vec![TokenKind::Kw(expected)]);
    }
    for word in ["While", "whil", "whilee", "event_src", "_nolist", "", "i", "nt"] {
        let chars: Vec<char> = word.chars().collect();
        assert_eq!(keyword(&chars), None, "{word}");
    }
}

#[test]
fn unexpected_characters_are_all_reported() {
    let src = "a $ b @\n?";
    let errors = match Tokens::new(src) {
        Err(errors) => errors,
        Ok(_) => panic!("lexed"),
    };
    assert_eq!(
        errors,
        vec![
            Error::new(
                2,
                1,
                ErrorKind::Syntax("Unexpected character `$`".to_string()),
                src.to_string()
            ),
            Error::new(
                6,
                1,
                ErrorKind::Syntax("Unexpected character `@`".to_string()),
                src.to_string()
            ),
            Error::new(
                8,
                1,
                ErrorKind::Syntax("Unexpected character `?`".to_string()),
                src.to_string()
            ),
        ]
    );
    assert_eq!(errors[0].span, Span { start: 2, length: 1 });
}

#[test]
fn a_slash_at_the_end_is_an_error() {
    let errors = match Tokens::new("a /") {
        Err(errors) => errors,
        Ok(_) => panic!("lexed"),
    };
    assert_eq!(
        errors,
        vec![Error::new(2, 0, ErrorKind::Eof, "a /".to_string())]
    );
    assert!(Tokens::new("a / b").is_ok());
    assert!(Tokens::new("a //").is_ok());
}

#[test]
fn white_space_is_that_of_ascii() {
    assert!(Tokens::new(" \t\n\x0c\r").is_ok());
    assert!(Tokens::new("\x0b").is_err());
    assert!(Tokens::new("\u{a0}").is_err());
    assert!(Tokens::new("é").is_err());
}

#[test]
fn one_token_at_a_time() {
    let raw = "ab //c\n12";
    let chars: Vec<char> = raw.chars().collect();
    let mut pos = 0;
    let mut line = 0;
    let token = Token::parse(raw, &chars, &mut pos, &mut line).unwrap().unwrap();
    assert_eq!(token.kind, TokenKind::Ident("ab"));
    assert_eq!(token.span, Span { start: 0, length: 2 });
    assert_eq!((pos, line), (2, 0));
    assert_eq!(Token::parse(raw, &chars, &mut pos, &mut line), Ok(None));
    assert_eq!((pos, line), (3, 0));
    assert_eq!(Token::parse(raw, &chars, &mut pos, &mut line), Ok(None));
    assert_eq!((pos, line), (7, 1));
    let token = Token::parse(raw, &chars, &mut pos, &mut line).unwrap().unwrap();
    assert_eq!(token.kind, TokenKind::LiteralInt("12"));
    assert_eq!((pos, line), (9, 1));
    assert_eq!(
        Token::parse(raw, &chars, &mut pos, &mut line),
        Err(Error::new(0, 0, ErrorKind::Eof, raw.to_string()))
    );
    assert_eq!((pos, line), (9, 1));
}

#[test]
fn runs_end_where_the_class_ends() {
    let chars: Vec<char> = "ab1_ \t9/".chars().collect();
    assert_eq!(scan(&chars, 0, CharClass::Word), 4);
    assert_eq!(scan(&chars, 0, CharClass::Digit), 0);
    assert_eq!(scan(&chars, 2, CharClass::Digit), 3);
    assert_eq!(scan(&chars, 4, CharClass::Blank), 6);
    assert_eq!(scan(&chars, 0, CharClass::Comment), 8);
    assert_eq!(scan(&chars, 8, CharClass::Word), 8);
}

#[test]
fn streams_are_taken_token_by_token() {
    let tokens = Tokens::new("f(1)").unwrap();
    let mut stream = tokens.iter();
    assert_eq!(stream.raw(), "f(1)");
    assert!(!stream.eof());
    assert_eq!(stream.peek().unwrap().kind, TokenKind::Ident("f"));
    assert_eq!(stream.peek().unwrap().kind, TokenKind::Ident("f"));
    assert_eq!(stream.next_token().unwrap().kind, TokenKind::Ident("f"));
    assert_eq!(stream.consume(TokenKind::LeftParen), Ok(()));
    assert_eq!(
        stream.consume(TokenKind::RightParen),
        Err(Error::new(
            2,
            1,
            ErrorKind::Syntax("Expected `RightParen`, got `LiteralInt(\"1\")`".to_string()),
            "f(1)".to_string()
        ))
    );
    // the token that was not expected is taken all the same
    assert_eq!(stream.consume(TokenKind::RightParen), Ok(()));
    assert!(stream.eof());
    assert_eq!(stream.peek(), None);
    assert_eq!(stream.next(), None);
    assert_eq!(
        stream.next_token(),
        Err(Error::new(0, 0, ErrorKind::Eof, "f(1)".to_string()))
    );
    assert_eq!(
        stream.consume(TokenKind::Semicolon),
        Err(Error::new(0, 0, ErrorKind::Eof, "f(1)".to_string()))
    );
}

#[test]
fn consume_compares_what_tokens_hold() {
    let tokens = Tokens::new("a while 7").unwrap();
    let mut stream = tokens.iter();
    assert_eq!(
        stream.consume(TokenKind::Ident("b")),
        Err(Error::new(
            0,
            1,
            ErrorKind::Syntax("Expected `Ident(\"b\")`, got `Ident(\"a\")`".to_string()),
            "a while 7".to_string()
        ))
    );
    assert_eq!(
        stream.consume(TokenKind::Kw(Keyword::Do)),
        Err(Error::new(
            2,
            5,
            ErrorKind::Syntax("Expected `Kw(Do)`, got `Kw(While)`".to_string()),
            "a while 7".to_string()
        ))
    );
    assert_eq!(stream.consume(TokenKind::LiteralInt("7")), Ok(()));
    let tokens = Tokens::new("a while 7").unwrap();
    let mut stream = tokens.iter();
    assert_eq!(stream.consume(TokenKind::Ident("a")), Ok(()));
    assert_eq!(stream.consume(TokenKind::Kw(Keyword::While)), Ok(()));
}

#[test]
fn token_kinds_print_like_their_names() {
    assert_eq!(TokenKind::LeftParen.to_string(), "LeftParen");
    assert_eq!(TokenKind::LShift.to_string(), "LShift");
    assert_eq!(TokenKind::Ident("x_1").to_string(), "Ident(\"x_1\")");
    assert_eq!(TokenKind::LiteralInt("42").to_string(), "LiteralInt(\"42\")");
    assert_eq!(TokenKind::Kw(Keyword::EventSrc).to_string(), "Kw(EventSrc)");
    assert_eq!(
        TokenKind::Ident("a\"b\\c\n").to_string(),
        "Ident(\"a\\\"b\\\\c\\n\")"
    );
    assert!(TokenKind::Ident("a").same(&TokenKind::Ident("a")));
    assert!(!TokenKind::Ident("a").same(&TokenKind::Ident("b")));
    assert!(!TokenKind::Ident("7").same(&TokenKind::LiteralInt("7")));
    assert!(TokenKind::Plus.same(&TokenKind::Plus));
    assert!(!TokenKind::Plus.same(&TokenKind::Minus));
}

#[test]
fn errors_at_tokens() {
    let tokens = Tokens::new("a + b").unwrap();
    let mut stream = tokens.iter();
    stream.next();
    let plus = stream.next().unwrap();
    let error = Error::from_token(plus, &stream, "no operator here".to_string());
    assert_eq!(
        error,
        Error::new(
            2,
            1,
            ErrorKind::Syntax("no operator here".to_string()),
            "a + b".to_string()
        )
    );
    assert_eq!(error.kind.to_string(), "Syntax error: no operator here");
    assert_eq!(ErrorKind::Eof.to_string(), "End of file reached");
}

#[test]
fn expressions_print_as_source() {
    let expr = Expr::BinaryOp(
        Expr::Ident("game").into(),
        BinaryOp::Sub,
        Expr::BinaryOp(
            Expr::Literal(3).into(),
            BinaryOp::Mul,
            Expr::Literal(-6).into(),
        )
        .into(),
    );
    assert_eq!(expr.to_string(), "game - 3 * -6");
    assert_eq!(Expr::Literal(0).to_string(), "0");
    assert_eq!(Expr::Literal(i32::MAX).to_string(), "2147483647");
    assert_eq!(Expr::Literal(i32::MIN).to_string(), "-2147483648");
    assert_eq!(BinaryOp::Add.to_string(), "+");
    assert_eq!(BinaryOp::Div.to_string(), "/");
    assert_eq!(Stmt::Expr(Expr::Literal(22).into()).to_string(), "22");
    assert_eq!(
        Stmt::FuncDecl("game", Expr::Literal(43).into()).to_string(),
        "int game {\n    43\n}"
    );
}

#[test]
fn token_kinds_print_like_their_debug_form() {
    let tokens = Tokens::new("task main() { x = 12 << y; if while #[a] >= < > - * / . , == <= >> }").unwrap();
    let mut stream = tokens.iter();
    let mut count = 0;
    while let Some(token) = stream.next() {
        assert_eq!(token.kind.to_string(), format!("{:?}", token.kind));
        count += 1;
    }
    assert_eq!(count, 29);
}
