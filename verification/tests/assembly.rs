use rcx::assembly::ast::LabelOrOpcode;
use rcx::assembly::parser::{parse, parse_line, parse_number};
use rcx::text::{chars_of, is_space};

#[test]
fn label_or_opcode() {
    for (case, expected) in [
        ("label:", vec![LabelOrOpcode::Label("label")]),
        ("opcode 5", vec![LabelOrOpcode::Opcode("opcode", vec![5])]),
        (
            "opcode 5 6 0x7",
            vec![LabelOrOpcode::Opcode("opcode", vec![5, 6, 7])],
        ),
        (
            "opcode    0xff",
            vec![LabelOrOpcode::Opcode("opcode", vec![0xff])],
        ),
        ("jmp GAME", vec![LabelOrOpcode::Jmp("GAME")]),
    ] {
        println!("{case}");
        assert_eq!(parse(case), Ok(expected));
    }
}

#[test]
fn a_program_parses_line_by_line() {
    let source = "start:\n    PlaySound 2\n\tWait 2 0x64 0\r\n  jmp start\n";
    assert_eq!(
        parse(source),
        Ok(vec![
            LabelOrOpcode::Label("start"),
            LabelOrOpcode::Opcode("PlaySound", vec![2]),
            LabelOrOpcode::Opcode("Wait", vec![2, 0x64, 0]),
            LabelOrOpcode::Jmp("start"),
        ])
    );
    assert_eq!(parse(""), Ok(vec![]));
}

#[test]
fn invalid_lines_are_numbered_from_one() {
    let source = "start:\n\nPlaySound 2 \n9lives\njmp  there\njmp 5 x";
    assert_eq!(
        parse(source),
        Err(vec![
            (2, "Invalid line"),
            (3, "Invalid line"),
            (4, "Invalid line"),
            (6, "Invalid line"),
        ])
    );
    assert_eq!(parse("\n"), Err(vec![(1, "Invalid line")]));
}

#[test]
fn labels_take_no_white_space() {
    assert_eq!(parse(" label:"), Err(vec![(1, "Invalid line")]));
    assert_eq!(parse("label: "), Err(vec![(1, "Invalid line")]));
    assert_eq!(parse("label :"), Err(vec![(1, "Invalid line")]));
    assert_eq!(parse(":"), Err(vec![(1, "Invalid line")]));
    assert_eq!(parse("_:"), Ok(vec![LabelOrOpcode::Label("_")]));
    assert_eq!(parse("a1_B:"), Ok(vec![LabelOrOpcode::Label("a1_B")]));
    // a carriage return stays with a last line that no line feed ends
    assert_eq!(parse("label:\r"), Err(vec![(1, "Invalid line")]));
    assert_eq!(parse("label:\r\n"), Ok(vec![LabelOrOpcode::Label("label")]));
}

#[test]
fn jmp_without_a_name_is_an_instruction() {
    assert_eq!(parse("jmp"), Ok(vec![LabelOrOpcode::Opcode("jmp", vec![])]));
    assert_eq!(
        parse("jmp 5"),
        Ok(vec![LabelOrOpcode::Opcode("jmp", vec![5])])
    );
    assert_eq!(parse("jmp a b"), Err(vec![(1, "Invalid line")]));
    assert_eq!(parse("jmpx y"), Err(vec![(1, "Invalid line")]));
    assert_eq!(
        parse("\u{2003}jmp\u{a0}\tthere"),
        Ok(vec![LabelOrOpcode::Jmp("there")])
    );
}

#[test]
fn numbers_are_bytes() {
    assert_eq!(parse_number("0"), Some(0));
    assert_eq!(parse_number("255"), Some(255));
    assert_eq!(parse_number("256"), None);
    assert_eq!(parse_number("000000255"), Some(255));
    assert_eq!(parse_number("99999999999999999999999999"), None);
    assert_eq!(parse_number("0xff"), Some(255));
    assert_eq!(parse_number("0xFF"), Some(255));
    assert_eq!(parse_number("0x0000aB"), Some(0xab));
    assert_eq!(parse_number("0x100"), None);
    assert_eq!(parse_number("0x"), None);
    assert_eq!(parse_number("0X1"), None);
    assert_eq!(parse_number("x1"), None);
    assert_eq!(parse_number("1f"), None);
    assert_eq!(parse_number("+5"), None);
    assert_eq!(parse_number(""), None);
    assert_eq!(
        parse("op 256"),
        Err(vec![(1, "Invalid line")])
    );
}

#[test]
fn white_space_is_what_unicode_says() {
    for c in ['\t', '\n', '\u{b}', '\u{c}', '\r', ' ', '\u{85}', '\u{a0}', '\u{1680}', '\u{2000}', '\u{200a}', '\u{2028}', '\u{2029}', '\u{202f}', '\u{205f}', '\u{3000}'] {
        assert!(is_space(c), "{c:?}");
        assert!(c.is_whitespace());
    }
    for c in ['a', '0', '_', '\u{8}', '\u{e}', '\u{200b}', '\u{feff}', '\u{180e}'] {
        assert!(!is_space(c), "{c:?}");
        assert!(!c.is_whitespace());
    }
    for n in 0..0x11000u32 {
        if let Some(c) = char::from_u32(n) {
            assert_eq!(is_space(c), c.is_whitespace(), "{c:?}");
        }
    }
}

#[test]
fn characters_of_a_string() {
    assert_eq!(chars_of("aé\u{2003}z"), vec!['a', 'é', '\u{2003}', 'z']);
    assert_eq!(chars_of(""), Vec::<char>::new());
}

#[test]
fn names_behind_characters_of_several_bytes() {
    // positions count characters, not bytes
    assert_eq!(
        parse("\u{3000}\u{3000}op\u{3000}7"),
        Ok(vec![LabelOrOpcode::Opcode("op", vec![7])])
    );
    assert_eq!(parse("né:"), Err(vec![(1, "Invalid line")]));
}

fn line<'input>(
    source: &'input str,
    label: bool,
    jmp: bool,
    opcode: bool,
) -> Option<LabelOrOpcode<'input>> {
    let chars = chars_of(source);
    parse_line(source, &chars, 0, chars.len(), label, jmp, opcode)
}

#[test]
fn what_a_line_holds_goes_by_the_patterns_that_match() {
    assert_eq!(
        line("label:", true, false, false),
        Some(LabelOrOpcode::Label("label"))
    );
    // the pattern of a label is asked first
    assert_eq!(
        line("jmp x:", true, true, true),
        Some(LabelOrOpcode::Label("jmp x"))
    );
    assert_eq!(
        line("jmp there", false, true, true),
        Some(LabelOrOpcode::Jmp("there"))
    );
    assert_eq!(
        line("jmp 7", false, false, true),
        Some(LabelOrOpcode::Opcode("jmp", vec![7]))
    );
    assert_eq!(line("jmp 7", false, false, false), None);
}

#[test]
fn a_line_without_what_its_pattern_promises_holds_nothing() {
    assert_eq!(line("label", true, false, false), None);
    assert_eq!(line("", true, false, false), None);
    assert_eq!(line("jmp", false, true, false), None);
    assert_eq!(line("   ", false, false, true), None);
    assert_eq!(line("op 256", false, false, true), None);
    assert_eq!(line("op x", false, false, true), None);
}

#[test]
fn a_line_within_a_text() {
    let source = "a:\n  op 1 0x2\n";
    let chars = chars_of(source);
    assert_eq!(
        parse_line(source, &chars, 3, 13, false, false, true),
        Some(LabelOrOpcode::Opcode("op", vec![1, 2]))
    );
    assert_eq!(
        parse_line(source, &chars, 0, 2, true, false, false),
        Some(LabelOrOpcode::Label("a"))
    );
}
