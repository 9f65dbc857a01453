use rcx::nqc::lexer::Keyword;
use rcx::nqc::tokens::{
    ident_flags, lexer, scan_token, scan_tokens, LexError, Reason, SimpleSpan, Span, Token,
};

fn tokens_of(src: &str) -> Vec<Token<'_>> {
    let (tokens, errs) = lexer(src);
    assert_eq!(errs, []);
    tokens.into_iter().map(|(token, _span)| token).collect()
}

#[test]
fn chumsky_parser_basic_tokens() {
    let src = "()[]{}+-*/===while-() some_var
        //this is a comment
        //another comment
        a()";

    let (tokens, errs) = lexer(src);
    assert_eq!(errs, []);
    let tokens = tokens
        .into_iter()
        .map(|(token, _span)| token)
        .collect::<Vec<_>>();

    let expected = &[
        Token::Ctrl('('),
        Token::Ctrl(')'),
        Token::Ctrl('['),
        Token::Ctrl(']'),
        Token::Ctrl('{'),
        Token::Ctrl('}'),
        Token::Op("+-*/==="),
        Token::Kw(Keyword::While),
        Token::Op("-"),
        Token::Ctrl('('),
        Token::Ctrl(')'),
        Token::Ident("some_var"),
        Token::Ident("a"),
        Token::Ctrl('('),
        Token::Ctrl(')'),
    ];
    assert_eq!(expected, tokens.as_slice());
}

#[test]
fn chumsky_parser_simple_prog() {
    let src = "task main() {
            SetPower(OUT_A, 50);
            OnFwd(OUT_A);
            Wait(100);
            Off(OUT_A);
        }";

    let (tokens, errs) = lexer(src);
    assert_eq!(errs, []);
    let tokens = tokens
        .into_iter()
        .map(|(token, _span)| token)
        .collect::<Vec<_>>();

    let expected = &[
        Token::Kw(Keyword::Task),
        Token::Ident("main"),
        Token::Ctrl('('),
        Token::Ctrl(')'),
        Token::Ctrl('{'),
        Token::Ident("SetPower"),
        Token::Ctrl('('),
        Token::Ident("OUT_A"),
        Token::Ctrl(','),
        Token::Int(50),
        Token::Ctrl(')'),
        Token::Ctrl(';'),
        Token::Ident("OnFwd"),
        Token::Ctrl('('),
        Token::Ident("OUT_A"),
        Token::Ctrl(')'),
        Token::Ctrl(';'),
        Token::Ident("Wait"),
        Token::Ctrl('('),
        Token::Int(100),
        Token::Ctrl(')'),
        Token::Ctrl(';'),
        Token::Ident("Off"),
        Token::Ctrl('('),
        Token::Ident("OUT_A"),
        Token::Ctrl(')'),
        Token::Ctrl(';'),
        Token::Ctrl('}'),
    ];
    assert_eq!(expected, tokens.as_slice());
}

#[test]
fn numbers_take_no_leading_zero() {
    assert_eq!(tokens_of("0"), vec![Token::Int(0)]);
    assert_eq!(
        tokens_of("007"),
        vec![Token::Int(0), Token::Int(0), Token::Int(7)]
    );
    assert_eq!(tokens_of("10 32767"), vec![Token::Int(10), Token::Int(32767)]);
}

#[test]
fn numbers_above_the_greatest_are_errors() {
    let (tokens, errs) = lexer("1 32768 2 99999999999999999999 3");
    assert_eq!(
        tokens.into_iter().map(|(token, _)| token).collect::<Vec<_>>(),
        vec![Token::Int(1), Token::Int(2), Token::Int(3)]
    );
    assert_eq!(
        errs,
        vec![
            LexError {
                span: Span { start: 2, end: 7 },
                reason: Reason::Number
            },
            LexError {
                span: Span { start: 10, end: 30 },
                reason: Reason::Number
            },
        ]
    );
}

#[test]
fn fractions_are_errors() {
    let (tokens, errs) = lexer("12.50+1");
    assert_eq!(
        tokens,
        vec![
            (Token::Op("+"), SimpleSpan { start: 5, end: 6 }),
            (Token::Int(1), SimpleSpan { start: 6, end: 7 }),
        ]
    );
    assert_eq!(
        errs,
        vec![LexError {
            span: Span { start: 0, end: 5 },
            reason: Reason::Number
        }]
    );
    // a point without a digit behind it is no fraction
    let (tokens, errs) = lexer("12.x");
    assert_eq!(
        tokens.into_iter().map(|(token, _)| token).collect::<Vec<_>>(),
        vec![Token::Int(12), Token::Ident("x")]
    );
    assert_eq!(
        errs,
        vec![LexError {
            span: Span { start: 2, end: 3 },
            reason: Reason::UnexpectedCharacter('.')
        }]
    );
}

#[test]
fn operators_are_runs_of_signs() {
    assert_eq!(tokens_of("a!=b"), vec![Token::Ident("a"), Token::Op("!="), Token::Ident("b")]);
    // within an operator, two slashes start no comment
    assert_eq!(tokens_of("+//x"), vec![Token::Op("+//"), Token::Ident("x")]);
    // between tokens they do
    assert_eq!(tokens_of("+ //x\n-"), vec![Token::Op("+"), Token::Op("-")]);
    assert_eq!(tokens_of("//x"), vec![]);
    assert_eq!(tokens_of("/ /"), vec![Token::Op("/"), Token::Op("/")]);
}

#[test]
fn white_space_and_comments_are_passed() {
    assert_eq!(tokens_of(""), vec![]);
    assert_eq!(tokens_of(" \t\r\n\u{3000}"), vec![]);
    assert_eq!(tokens_of("// only a comment"), vec![]);
    assert_eq!(
        tokens_of("//a\n  //b\n\n x //c\n//d"),
        vec![Token::Ident("x")]
    );
}

#[test]
fn words_follow_unicode() {
    assert_eq!(tokens_of("été"), vec![Token::Ident("été")]);
    assert_eq!(tokens_of("_x1"), vec![Token::Ident("_x1")]);
    assert_eq!(tokens_of("__nolist"), vec![Token::Kw(Keyword::Nolist)]);
    assert_eq!(
        tokens_of("whilex while"),
        vec![Token::Ident("whilex"), Token::Kw(Keyword::While)]
    );
    let chars: Vec<char> = "a1_é $".chars().collect();
    let (starts, continues) = ident_flags(&chars);
    assert_eq!(starts, vec![true, false, true, true, false, false]);
    assert_eq!(continues, vec![true, true, true, true, false, false]);
}

#[test]
fn unexpected_characters_are_passed_one_by_one() {
    let (tokens, errs) = lexer("a $# b");
    assert_eq!(
        tokens,
        vec![
            (Token::Ident("a"), SimpleSpan { start: 0, end: 1 }),
            (Token::Ident("b"), SimpleSpan { start: 5, end: 6 }),
        ]
    );
    assert_eq!(
        errs,
        vec![
            LexError {
                span: Span { start: 2, end: 3 },
                reason: Reason::UnexpectedCharacter('$')
            },
            LexError {
                span: Span { start: 3, end: 4 },
                reason: Reason::UnexpectedCharacter('#')
            },
        ]
    );
}

#[test]
fn stretches_count_characters() {
    let (tokens, errs) = lexer("é=1 // ü\n{é}");
    assert_eq!(errs, vec![]);
    assert_eq!(
        tokens,
        vec![
            (Token::Ident("é"), SimpleSpan { start: 0, end: 1 }),
            (Token::Op("="), SimpleSpan { start: 1, end: 2 }),
            (Token::Int(1), SimpleSpan { start: 2, end: 3 }),
            (Token::Ctrl('{'), SimpleSpan { start: 9, end: 10 }),
            (Token::Ident("é"), SimpleSpan { start: 10, end: 11 }),
            (Token::Ctrl('}'), SimpleSpan { start: 11, end: 12 }),
        ]
    );
}

#[test]
fn what_a_word_is_goes_by_the_flags() {
    // with other flags the same characters make other tokens
    let src = "ab c";
    let chars: Vec<char> = src.chars().collect();
    let (tokens, errs) = scan_tokens(src, &chars, &[true; 4], &[false; 4]);
    assert_eq!(errs, vec![]);
    assert_eq!(
        tokens.into_iter().map(|(token, _)| token).collect::<Vec<_>>(),
        vec![Token::Ident("a"), Token::Ident("b"), Token::Ident("c")]
    );
    let (tokens, errs) = scan_tokens(src, &chars, &[false; 4], &[true; 4]);
    assert_eq!(tokens, vec![]);
    assert_eq!(errs.len(), 3);
    let (tokens, _) = scan_tokens(src, &chars, &[true; 4], &[true; 4]);
    assert_eq!(
        tokens,
        vec![(Token::Ident("ab c"), SimpleSpan { start: 0, end: 4 })]
    );
    assert_eq!(
        scan_token(src, &chars, &[true; 4], &[true, true, false, false], 0),
        (Ok(Token::Ident("ab")), 2)
    );
    assert_eq!(
        scan_token(src, &chars, &[false; 4], &[true; 4], 1),
        (Err(Reason::UnexpectedCharacter('b')), 2)
    );
}

#[test]
fn tokens_print_as_the_source_spells_them() {
    assert_eq!(Token::Null.to_string(), "null");
    assert_eq!(Token::Int(-7).to_string(), "-7");
    assert_eq!(Token::Int(i16::MIN).to_string(), "-32768");
    assert_eq!(Token::Int(100).to_string(), "100");
    assert_eq!(Token::Op("+=").to_string(), "+=");
    assert_eq!(Token::Ctrl('{').to_string(), "{");
    assert_eq!(Token::Ident("main").to_string(), "main");
    assert_eq!(Token::Kw(Keyword::While).to_string(), "while");
    assert_eq!(Token::Kw(Keyword::EventSrc).to_string(), "_event_src");
    assert_eq!(Keyword::Nolist.as_str(), "__nolist");
    assert_eq!(Keyword::Asm.as_str(), "asm");
}
