use rcx::binfmt::{
    describe, is_nul_terminated, parse, print_hex_with_marker_at, Flaw, ParseFailure, RcxBin,
    Section, SectionType, Symbol, SymbolType, TargetType,
};
use rcx::Error;

fn unhex(text: &str) -> Vec<u8> {
    let digits: String = text.chars().filter(|c| !c.is_whitespace()).collect();
    hex::decode(digits).unwrap()
}

fn sample() -> Vec<u8> {
    unhex(
        "5243584902010100010000000000 \
        140013070207e18713010232e1812181 \
        430264002141000005006d61696e00",
    )
}

fn complex() -> Vec<u8> {
    unhex(
        "52435849020103000500000001000400e181218100000e0013070207e187
    130102321700710100000001330014000232001401020500130100002400
    00010085420059000008140102feff270d8502000b000006140102020043
    02640027a800010008007365745f66776400000005006d61696e0000010a
    006c6f6f705f7461736b0002000600706f776572000201060064656c7461
    00",
    )
}

fn parse_message(bin: &[u8]) -> String {
    match RcxBin::parse(bin) {
        Err(Error::Parse(message)) => message,
        other => panic!("expected a parse error, got {other:?}"),
    }
}

#[test]
fn err_msg() {
    let out = print_hex_with_marker_at(&complex(), 5);
    let expected = "       0  1  2  3  4  5  6  7  8  9  a  b  c  d  e  f
0x00: 52 43 58 49 02 01 03 00 05 00 00 00 01 00 04 00
                    ^<<
0x10: e1 81 21 81 00 00 0e 00 13 07 02 07 e1 87 13 01
0x20: 02 32 17 00 71 01 00 00 00 01 33 00 14 00 02 32
0x30: 00 14 01 02 05 00 13 01 00 00 24 00 00 01 00 85
0x40: 42 00 59 00 00 08 14 01 02 fe ff 27 0d 85 02 00
0x50: 0b 00 00 06 14 01 02 02 00 43 02 64 00 27 a8 00
0x60: 01 00 08 00 73 65 74 5f 66 77 64 00 00 00 05 00
0x70: 6d 61 69 6e 00 00 01 0a 00 6c 6f 6f 70 5f 74 61
0x80: 73 6b 00 02 00 06 00 70 6f 77 65 72 00 02 01 06
0x90: 00 64 65 6c 74 61 00
";
    assert_eq!(out, expected);

    let out = print_hex_with_marker_at(&complex(), 35);
    let expected = "       0  1  2  3  4  5  6  7  8  9  a  b  c  d  e  f
0x00: 52 43 58 49 02 01 03 00 05 00 00 00 01 00 04 00
0x10: e1 81 21 81 00 00 0e 00 13 07 02 07 e1 87 13 01
0x20: 02 32 17 00 71 01 00 00 00 01 33 00 14 00 02 32
              ^<<
0x30: 00 14 01 02 05 00 13 01 00 00 24 00 00 01 00 85
0x40: 42 00 59 00 00 08 14 01 02 fe ff 27 0d 85 02 00
0x50: 0b 00 00 06 14 01 02 02 00 43 02 64 00 27 a8 00
0x60: 01 00 08 00 73 65 74 5f 66 77 64 00 00 00 05 00
0x70: 6d 61 69 6e 00 00 01 0a 00 6c 6f 6f 70 5f 74 61
0x80: 73 6b 00 02 00 06 00 70 6f 77 65 72 00 02 01 06
0x90: 00 64 65 6c 74 61 00
";
    assert_eq!(out, expected);
}

#[test]
fn parse_sample() {
    let bin = RcxBin::parse(&sample()).unwrap();
    assert_eq!(
        bin,
        RcxBin {
            signature: *b"RCXI",
            version: 0x0102,
            section_count: 1,
            symbol_count: 1,
            target_type: TargetType::Rcx,
            reserved: 0,
            sections: vec![Section {
                ty: SectionType::Task,
                number: 0,
                length: 20,
                data: vec![
                    0x13, 0x7, 0x2, 0x7, 0xe1, 0x87, 0x13, 0x1, 0x2, 0x32, 0xe1, 0x81, 0x21,
                    0x81, 0x43, 0x2, 0x64, 0x0, 0x21, 0x41
                ]
            }],
            symbols: vec![Symbol {
                ty: SymbolType::Task,
                index: 0,
                length: 5,
                name: b"main".to_vec(),
            }],
        }
    );
}

#[test]
fn parse_complex() {
    let bin = RcxBin::parse(&complex()).unwrap();
    assert_eq!(
        bin,
        RcxBin {
            signature: *b"RCXI",
            version: 0x0102,
            section_count: 3,
            symbol_count: 5,
            target_type: TargetType::Rcx,
            reserved: 0,
            sections: vec![
                Section {
                    ty: SectionType::Subroutine,
                    number: 0,
                    length: 4,
                    data: vec![225, 129, 33, 129]
                },
                Section {
                    ty: SectionType::Task,
                    number: 0,
                    length: 14,
                    data: vec![19, 7, 2, 7, 225, 135, 19, 1, 2, 50, 23, 0, 113, 1]
                },
                Section {
                    ty: SectionType::Task,
                    number: 1,
                    length: 51,
                    data: vec![
                        20, 0, 2, 50, 0, 20, 1, 2, 5, 0, 19, 1, 0, 0, 36, 0, 0, 1, 0, 133, 66,
                        0, 89, 0, 0, 8, 20, 1, 2, 254, 255, 39, 13, 133, 2, 0, 11, 0, 0, 6, 20,
                        1, 2, 2, 0, 67, 2, 100, 0, 39, 168
                    ]
                },
            ],
            symbols: vec![
                Symbol {
                    ty: SymbolType::Sub,
                    index: 0,
                    length: 8,
                    name: b"set_fwd".to_vec()
                },
                Symbol {
                    ty: SymbolType::Task,
                    index: 0,
                    length: 5,
                    name: b"main".to_vec()
                },
                Symbol {
                    ty: SymbolType::Task,
                    index: 1,
                    length: 10,
                    name: b"loop_task".to_vec()
                },
                Symbol {
                    ty: SymbolType::Var,
                    index: 0,
                    length: 6,
                    name: b"power".to_vec()
                },
                Symbol {
                    ty: SymbolType::Var,
                    index: 1,
                    length: 6,
                    name: b"delta".to_vec()
                }
            ],
        }
    );
}

#[test]
fn parsed_images_are_well_formed() {
    for file in [sample(), complex()] {
        let bin = RcxBin::parse(&file).unwrap();
        assert_eq!(usize::from(bin.section_count), bin.sections.len());
        assert_eq!(usize::from(bin.symbol_count), bin.symbols.len());
        for section in &bin.sections {
            assert_eq!(usize::from(section.length), section.data.len());
        }
        for symbol in &bin.symbols {
            assert!(!symbol.name.contains(&0));
            assert_eq!(usize::from(symbol.length), symbol.name.len() + 1);
        }
        assert_eq!(bin.verify(), Ok(()));
    }
}

#[test]
fn minimal_image() {
    let refused = RcxBin::parse(&unhex("52435849020100000000ff00")).unwrap_err();
    assert!(matches!(refused, Error::Parse(_)));
    let bin = RcxBin::parse(&unhex("524358490201000000000507")).unwrap();
    assert_eq!(
        bin,
        RcxBin {
            signature: *b"RCXI",
            version: 0x0102,
            section_count: 0,
            symbol_count: 0,
            target_type: TargetType::Swan,
            reserved: 7,
            sections: vec![],
            symbols: vec![],
        }
    );
}

#[test]
fn what_follows_the_symbols_is_ignored() {
    let mut file = sample();
    file.extend_from_slice(&[1, 2, 3]);
    assert_eq!(RcxBin::parse(&file), RcxBin::parse(&sample()));
}

#[test]
fn wrong_signature_fails_at_the_start() {
    let mut file = sample();
    file[3] = b'J';
    assert_eq!(
        parse(&file),
        Err(ParseFailure {
            offset: 0,
            flaw: Flaw::Signature
        })
    );
    assert_eq!(
        parse(b"RCX"),
        Err(ParseFailure {
            offset: 0,
            flaw: Flaw::Signature
        })
    );
    assert_eq!(
        parse(&[]),
        Err(ParseFailure {
            offset: 0,
            flaw: Flaw::Signature
        })
    );
}

#[test]
fn truncated_header_fails_where_the_field_starts() {
    let file = sample();
    for (len, offset) in [
        (4, 4),
        (5, 4),
        (6, 6),
        (7, 6),
        (8, 8),
        (9, 8),
        (10, 10),
        (11, 11),
        (12, 12),
    ] {
        assert_eq!(
            parse(&file[..len]),
            Err(ParseFailure {
                offset,
                flaw: Flaw::Truncated
            }),
            "{len} bytes"
        );
    }
}

#[test]
fn unknown_types_fail_behind_the_byte() {
    let mut file = sample();
    file[10] = 6;
    assert_eq!(
        parse(&file),
        Err(ParseFailure {
            offset: 11,
            flaw: Flaw::Kind
        })
    );
    let mut file = sample();
    file[12] = 5;
    assert_eq!(
        parse(&file),
        Err(ParseFailure {
            offset: 13,
            flaw: Flaw::Kind
        })
    );
    let mut file = sample();
    file[36] = 3;
    assert_eq!(
        parse(&file),
        Err(ParseFailure {
            offset: 37,
            flaw: Flaw::Kind
        })
    );
}

#[test]
fn truncated_section_fails_where_the_data_start() {
    let file = sample();
    assert_eq!(
        parse(&file[..30]),
        Err(ParseFailure {
            offset: 16,
            flaw: Flaw::Truncated
        })
    );
    assert_eq!(
        parse(&file[..14]),
        Err(ParseFailure {
            offset: 14,
            flaw: Flaw::Truncated
        })
    );
}

#[test]
fn missing_padding_fails_behind_the_data() {
    // one section of one byte wants three bytes of padding
    let mut file = unhex("524358490201010000000000 00000100 aa");
    assert_eq!(
        parse(&file),
        Err(ParseFailure {
            offset: 17,
            flaw: Flaw::Truncated
        })
    );
    file.extend_from_slice(&[0, 0]);
    assert_eq!(
        parse(&file),
        Err(ParseFailure {
            offset: 17,
            flaw: Flaw::Truncated
        })
    );
    file.push(0);
    let bin = parse(&file).unwrap();
    assert_eq!(bin.sections[0].data, vec![0xaa]);
}

#[test]
fn names_must_end_in_their_only_nul() {
    let file = sample();
    let end = file.len();
    let mut open = file.clone();
    open[end - 1] = b'!';
    assert_eq!(
        parse(&open),
        Err(ParseFailure {
            offset: end,
            flaw: Flaw::Name
        })
    );
    let mut inner = file.clone();
    inner[end - 3] = 0;
    assert_eq!(
        parse(&inner),
        Err(ParseFailure {
            offset: end,
            flaw: Flaw::Name
        })
    );
    // a name of no bytes has no NUL
    let empty = unhex("524358490201000001000000 00000000");
    assert_eq!(
        parse(&empty),
        Err(ParseFailure {
            offset: 16,
            flaw: Flaw::Name
        })
    );
    assert!(is_nul_terminated(b"main\0"));
    assert!(is_nul_terminated(b"\0"));
    assert!(!is_nul_terminated(b"main"));
    assert!(!is_nul_terminated(b"ma\0in\0"));
    assert!(!is_nul_terminated(b""));
}

#[test]
fn failure_is_reported_with_a_hex_dump() {
    let mut file = sample();
    file[10] = 6;
    let expected = "Unknown type at offset 11
       0  1  2  3  4  5  6  7  8  9  a  b  c  d  e  f
0x00: 52 43 58 49 02 01 01 00 01 00 06 00 00 00 14 00
                                      ^<<
0x10: 13 07 02 07 e1 87 13 01 02 32 e1 81 21 81 43 02
0x20: 64 00 21 41 00 00 05 00 6d 61 69 6e 00
";
    assert_eq!(parse_message(&file), expected);
    assert_eq!(
        parse_message(b"RCXJ"),
        "Missing signature at offset 0
       0  1  2  3  4  5  6  7  8  9  a  b  c  d  e  f
0x00: 52 43 58 4a
     ^<<
"
    );
    assert_eq!(
        parse_message(b"RCXI"),
        "Unexpected end of input at offset 4
       0  1  2  3  4  5  6  7  8  9  a  b  c  d  e  f
0x00: 52 43 58 49
                 ^<<
"
    );
    let mut open = sample();
    let end = open.len();
    open[end - 1] = b'!';
    assert_eq!(
        parse_message(&open),
        "Name is not NUL-terminated at offset 45
       0  1  2  3  4  5  6  7  8  9  a  b  c  d  e  f
0x00: 52 43 58 49 02 01 01 00 01 00 00 00 00 00 14 00
0x10: 13 07 02 07 e1 87 13 01 02 32 e1 81 21 81 43 02
0x20: 64 00 21 41 00 00 05 00 6d 61 69 6e 21
                                            ^<<
"
    );
}

#[test]
fn hex_dump_of_nothing_is_its_header() {
    assert_eq!(
        print_hex_with_marker_at(&[], 0),
        "       0  1  2  3  4  5  6  7  8  9  a  b  c  d  e  f\n"
    );
}

#[test]
fn hex_dump_marks_no_byte_behind_the_last_line() {
    let bin = [0u8; 16];
    let with = print_hex_with_marker_at(&bin, 15);
    let without = print_hex_with_marker_at(&bin, 16);
    assert!(with.ends_with(&format!("{}^<<\n", " ".repeat(5 + 45))));
    assert_eq!(
        without,
        "       0  1  2  3  4  5  6  7  8  9  a  b  c  d  e  f
0x00: 00 00 00 00 00 00 00 00 00 00 00 00 00 00 00 00
"
    );
}

#[test]
fn hex_dump_offsets_grow_past_two_digits() {
    let bin = vec![0xabu8; 0x101];
    let out = print_hex_with_marker_at(&bin, 0x100);
    assert!(out.ends_with("0xf0: ab ab ab ab ab ab ab ab ab ab ab ab ab ab ab ab\n0x100: ab\n     ^<<\n"));
}

fn image_with_sections(count: u16, sections: &[(u8, u8)]) -> Vec<u8> {
    let mut file = b"RCXI".to_vec();
    file.extend_from_slice(&[0x02, 0x01]);
    file.extend_from_slice(&count.to_le_bytes());
    file.extend_from_slice(&[0, 0, 0, 0]);
    for (ty, number) in sections {
        file.extend_from_slice(&[*ty, *number, 0, 0]);
    }
    file
}

#[test]
fn more_than_ten_sections_are_refused() {
    let ten: Vec<(u8, u8)> = (0..10).map(|n| (0, n)).collect();
    assert!(RcxBin::parse(&image_with_sections(10, &ten)).is_ok());
    let eleven: Vec<(u8, u8)> = (0..11).map(|n| (0, n)).collect();
    let file = image_with_sections(11, &eleven);
    assert_eq!(
        parse_message(&file),
        "Invalid number of chunks at offset 6
       0  1  2  3  4  5  6  7  8  9  a  b  c  d  e  f
0x00: 52 43 58 49 02 01 0b 00 00 00 00 00 00 00 00 00
                       ^<<
0x10: 00 01 00 00 00 02 00 00 00 03 00 00 00 04 00 00
0x20: 00 05 00 00 00 06 00 00 00 07 00 00 00 08 00 00
0x30: 00 09 00 00 00 0a 00 00
"
    );
    assert_eq!(
        RcxBin::parse(&file).unwrap_err(),
        Error::Parse(describe(&file, "Invalid number of chunks", 6))
    );
}

#[test]
fn repeated_sections_are_refused() {
    let file = image_with_sections(3, &[(0, 1), (1, 1), (0, 1)]);
    assert_eq!(
        parse_message(&file),
        "Nonunique chunk numbers at offset 20
       0  1  2  3  4  5  6  7  8  9  a  b  c  d  e  f
0x00: 52 43 58 49 02 01 03 00 00 00 00 00 00 01 00 00
0x10: 01 01 00 00 00 01 00 00
                 ^<<
"
    );
    // the first of the sections that repeat an earlier one is marked
    let file = image_with_sections(4, &[(0, 1), (0, 1), (1, 1), (1, 1)]);
    assert!(parse_message(&file).starts_with("Nonunique chunk numbers at offset 16\n"));
    let file = image_with_sections(3, &[(0, 1), (1, 1), (0, 2)]);
    assert!(RcxBin::parse(&file).is_ok());
}

#[test]
fn a_repeated_section_is_found_behind_data_and_padding() {
    // a task of one byte, a sound of four bytes, and the task again
    let file = unhex(
        "524358490201030000000000 00070100 aa000000 02000400 01020304 00070000",
    );
    assert_eq!(
        RcxBin::parse(&file).unwrap_err(),
        Error::Parse(describe(&file, "Nonunique chunk numbers", 28))
    );
    let image = parse(&file).unwrap();
    assert_eq!(image.violation(), Some(("Nonunique chunk numbers", 28)));
    assert_eq!(parse(&sample()).unwrap().violation(), None);
}

#[test]
fn verify_checks_the_count() {
    let mut bin = RcxBin::parse(&sample()).unwrap();
    assert_eq!(bin.verify(), Ok(()));
    bin.section_count = 2;
    assert_eq!(
        bin.verify(),
        Err(Error::Parse("Invalid number of chunks".to_string()))
    );
    bin.section_count = 1;
    bin.sections.push(bin.sections[0].clone());
    assert_eq!(
        bin.verify(),
        Err(Error::Parse("Invalid number of chunks".to_string()))
    );
    bin.section_count = 2;
    assert_eq!(
        bin.verify(),
        Err(Error::Parse("Nonunique chunk numbers".to_string()))
    );
}

#[test]
fn images_print_themselves() {
    let bin = RcxBin::parse(&sample()).unwrap();
    let expected = "Signature: RCXI
Version: 102
1 sections, 1 symbols
Target: Rcx
Sections:
  Task - 20 bytes
    13070207e18713010232e18121814302640021410000

Symbols:
  Task at 0 - 5 bytes
    \"main\"

";
    // the data of the section are twenty bytes
    let expected = expected.replace(
        "13070207e18713010232e18121814302640021410000",
        "13070207e18713010232e1812181430264002141",
    );
    assert_eq!(bin.to_string(), expected);
    assert_eq!(bin.sections[0].to_string(), "  Task - 20 bytes\n    13070207e18713010232e1812181430264002141\n");
    assert_eq!(bin.symbols[0].to_string(), "  Task at 0 - 5 bytes\n    \"main\"\n");
    assert_eq!(TargetType::CyberMaster.to_string(), "CyberMaster");
    assert_eq!(SectionType::Animation.to_string(), "Animation");
    assert_eq!(SymbolType::Var.to_string(), "Var");
}

#[test]
fn names_are_escaped() {
    let symbol = Symbol {
        ty: SymbolType::Var,
        index: 200,
        length: 9,
        name: b"a\"b\\c\n\x01\xff".to_vec(),
    };
    assert_eq!(
        symbol.to_string(),
        "  Var at 200 - 9 bytes\n    \"a\\\"b\\\\c\\n\\x01\\xff\"\n"
    );
}

#[test]
fn names_are_escaped_like_byte_strings() {
    for byte in 1..=255u8 {
        let symbol = Symbol {
            ty: SymbolType::Task,
            index: 0,
            length: 2,
            name: vec![byte],
        };
        let expected = format!("  Task at 0 - 2 bytes\n    \"{}\"\n", [byte].escape_ascii());
        assert_eq!(symbol.to_string(), expected, "{byte:#x}");
    }
}

#[test]
fn sections_print_their_data_in_hexadecimal() {
    let data: Vec<u8> = (0..=255).collect();
    let section = Section {
        ty: SectionType::Sound,
        number: 3,
        length: 256,
        data: data.clone(),
    };
    let mut digits = String::new();
    for byte in &data {
        digits += &format!("{byte:02x}");
    }
    assert_eq!(
        section.to_string(),
        format!("  Sound - 256 bytes\n    {digits}\n")
    );
}
