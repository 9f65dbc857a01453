use rcx::binfmt::RcxBin;
use rcx::disasm::{
    decode_at, disasm_code_section, is_branch, print, print_header, print_section,
    print_symbol_table, sweep, BranchType, DecodeFailure, Instruction,
};
use rcx::opcodes::{
    BranchAlwaysFar, BranchAlwaysNear, DecrementLoopCounterFar, DecrementLoopCounterNear,
    Opcodes, PlaySound, SetMotorOnOff, TestAndBranchFar, TestAndBranchNear, Wait,
};
use rcx::Error;

fn unhex(text: &str) -> Vec<u8> {
    let digits: String = text.chars().filter(|c| !c.is_whitespace()).collect();
    hex::decode(digits).unwrap()
}

fn prog() -> Vec<u8> {
    unhex(
        "52435849020103000500000001000400e181218100000e0013070207e187
    130102321700710100000001330014000232001401020500130100002400
    00010085420059000008140102feff270d8502000b000006140102020043
    02640027a800010008007365745f66776400000005006d61696e0000010a
    006c6f6f705f7461736b0002000600706f776572000201060064656c7461
    00",
    )
}

fn offsets(listing: &[Instruction]) -> Vec<usize> {
    listing.iter().map(|instruction| instruction.offset).collect()
}

#[test]
fn disasm_test_header() {
    let bin = RcxBin::parse(&prog()).unwrap();
    let mut printed = String::new();
    print_header(&bin, &mut printed);
    let expected = "RCXI version 102 targeting Rcx\n";
    assert_eq!(printed, expected);
}

#[test]
fn disasm_test_symbol_table() {
    let bin = RcxBin::parse(&prog()).unwrap();
    let mut printed = String::new();
    print_symbol_table(&bin, &mut printed);
    let expected = r#".SYMBOLS:
  Sub 0 "set_fwd"
  Task 0 "main"
  Task 1 "loop_task"
  Var 0 "power"
  Var 1 "delta"
"#;
    assert_eq!(printed, expected);
}

#[test]
fn near_branch_arithmetic() {
    // the offset byte sits at 0x10, so the counter behind it is 0x11
    let forward = Opcodes::BranchAlwaysNear(BranchAlwaysNear { offset: 0x05 });
    assert_eq!(
        is_branch(&forward, 0x11),
        Ok(Some(BranchType::Unconditional(0x15)))
    );
    let back = Opcodes::BranchAlwaysNear(BranchAlwaysNear { offset: 0x85 });
    assert_eq!(
        is_branch(&back, 0x11),
        Ok(Some(BranchType::Unconditional(0x8b)))
    );
    let edge = Opcodes::BranchAlwaysNear(BranchAlwaysNear { offset: 0x80 });
    assert_eq!(
        is_branch(&edge, 0x11),
        Ok(Some(BranchType::Unconditional(0x90)))
    );
    let edge = Opcodes::BranchAlwaysNear(BranchAlwaysNear { offset: 0x7f });
    assert_eq!(
        is_branch(&edge, 0x11),
        Ok(Some(BranchType::Unconditional(0x8f)))
    );
    let edge = Opcodes::BranchAlwaysNear(BranchAlwaysNear { offset: 0xff });
    assert_eq!(
        is_branch(&edge, 0x11),
        Ok(Some(BranchType::Unconditional(0x11)))
    );
}

#[test]
fn far_branch_arithmetic() {
    let forward = Opcodes::BranchAlwaysFar(BranchAlwaysFar {
        offset: 0x05,
        extension: 2,
    });
    assert_eq!(
        is_branch(&forward, 0x11),
        Ok(Some(BranchType::Unconditional(0x10 + 5 + 256)))
    );
    let back = Opcodes::BranchAlwaysFar(BranchAlwaysFar {
        offset: 0x85,
        extension: 1,
    });
    assert_eq!(
        is_branch(&back, 0x211),
        Ok(Some(BranchType::Unconditional(0x210 + 128 - 5 - 128)))
    );
}

#[test]
fn conditional_branches_are_conditional() {
    let near = Opcodes::TestAndBranchNear(TestAndBranchNear {
        opsrc1: 0x42,
        src2: 0,
        arg1: 0x59,
        arg2: 0,
        offset: 8,
    });
    assert_eq!(is_branch(&near, 26), Ok(Some(BranchType::Conditional(33))));
    let far = Opcodes::TestAndBranchFar(TestAndBranchFar {
        opsrc1: 0x42,
        src2: 0,
        arg1: 0x59,
        arg2: 0,
        offset: 8,
        extension: 1,
    });
    assert_eq!(
        is_branch(&far, 27),
        Ok(Some(BranchType::Conditional(26 + 8 + 128)))
    );
    let near = Opcodes::DecrementLoopCounterNear(DecrementLoopCounterNear { offset: 3 });
    assert_eq!(is_branch(&near, 10), Ok(Some(BranchType::Conditional(12))));
    let far = Opcodes::DecrementLoopCounterFar(DecrementLoopCounterFar {
        offset: 3,
        extension: 1,
    });
    assert_eq!(is_branch(&far, 10), Ok(Some(BranchType::Conditional(140))));
}

#[test]
fn other_opcodes_are_no_branches() {
    let op = Opcodes::PlaySound(PlaySound { sound: 1 });
    assert_eq!(is_branch(&op, 2), Ok(None));
    assert_eq!(is_branch(&op, 0), Ok(None));
}

#[test]
fn a_target_that_is_no_address_is_refused() {
    let back = Opcodes::BranchAlwaysFar(BranchAlwaysFar {
        offset: 0x85,
        extension: 2,
    });
    // 0x10 + 128 - 5 - 256 lies before the section
    assert_eq!(is_branch(&back, 0x11), Err(Error::IntConversion));
    let forward = Opcodes::BranchAlwaysNear(BranchAlwaysNear { offset: 1 });
    assert_eq!(
        is_branch(&forward, usize::MAX),
        Ok(Some(BranchType::Unconditional(usize::MAX)))
    );
    let further = Opcodes::BranchAlwaysNear(BranchAlwaysNear { offset: 2 });
    assert_eq!(is_branch(&further, usize::MAX), Err(Error::IntConversion));
    // a counter of zero puts the base before the section
    assert_eq!(
        is_branch(&forward, 0),
        Ok(Some(BranchType::Unconditional(0)))
    );
    let stay = Opcodes::BranchAlwaysNear(BranchAlwaysNear { offset: 0 });
    assert_eq!(is_branch(&stay, 0), Err(Error::IntConversion));
}

#[test]
fn straight_code_is_listed_in_order() {
    let bin = RcxBin::parse(&prog()).unwrap();
    let listing = disasm_code_section(&bin.sections[1].data);
    assert_eq!(offsets(&listing), vec![0, 4, 6, 10, 12]);
    assert_eq!(
        listing[4],
        Instruction {
            offset: 12,
            opcode: Opcodes::StartTask(rcx::opcodes::StartTask { task: 1 }),
            branch_target: None,
        }
    );
}

#[test]
fn branches_are_followed() {
    let bin = RcxBin::parse(&prog()).unwrap();
    let listing = disasm_code_section(&bin.sections[2].data);
    assert_eq!(
        offsets(&listing),
        vec![0, 5, 10, 14, 19, 26, 31, 33, 40, 45, 49]
    );
    assert_eq!(
        listing[4].branch_target,
        Some(BranchType::Conditional(33))
    );
    assert_eq!(
        listing[6].branch_target,
        Some(BranchType::Unconditional(45))
    );
    assert_eq!(
        listing[7].branch_target,
        Some(BranchType::Conditional(45))
    );
    assert_eq!(
        listing[10].branch_target,
        Some(BranchType::Unconditional(50 + 128 - 0x28))
    );
    assert_eq!(
        listing[9].opcode,
        Opcodes::Wait(Wait {
            source: 2,
            argument: 100
        })
    );
}

#[test]
fn code_behind_a_branch_that_is_never_reached_is_not_listed() {
    // 0: branch to 4; 2: play sound (skipped); 4: motor off
    let section = unhex("27 03 51 01 21 41");
    let listing = disasm_code_section(&section);
    assert_eq!(offsets(&listing), vec![0, 4]);
    assert_eq!(
        listing[1].opcode,
        Opcodes::SetMotorOnOff(SetMotorOnOff { code: 0x41 })
    );
}

#[test]
fn a_loop_is_listed_once() {
    // 0: play sound; 2: branch to 130 - 1 ... build a loop with a forward
    // branch that lands on the first instruction again after wrapping
    // through a second branch
    // 0: branch to 4; 2: branch to 0 (never reached); 4: test and branch
    // to 0 or on to 11; 11: play sound
    let section = unhex("27 03  27 00  85 00 00 00 00 00 00  51 05");
    // the test at 4 has its offset byte at 10 and offset 0: target 10
    let listing = disasm_code_section(&section);
    // 10 is the offset byte itself: 0x00 is no opcode, so the sweep
    // comes back to what follows the test
    assert_eq!(offsets(&listing), vec![0, 4, 11]);
}

#[test]
fn what_follows_a_conditional_branch_is_listed_after_its_target() {
    // 0: test, target 7 + 2 = 9; 7: play sound 1; 9: play sound 2
    let section = unhex("85 00 00 00 00 00 02  51 01  51 02");
    let listing = disasm_code_section(&section);
    assert_eq!(offsets(&listing), vec![0, 7, 9]);
}

#[test]
fn a_branch_into_an_instruction_is_decoded_where_it_lands() {
    // 0: branch to 1 + 2 = 3, the middle of the wait at 2
    // 2: wait 43 51 05 00; at 3: play sound 5
    let section = unhex("27 02  43 51 05 00");
    let listing = disasm_code_section(&section);
    assert_eq!(offsets(&listing), vec![0, 3]);
    assert_eq!(
        listing[1].opcode,
        Opcodes::PlaySound(PlaySound { sound: 5 })
    );
}

#[test]
fn an_unknown_opcode_ends_the_sweep_there() {
    let section = unhex("51 01 00 51 02");
    let listing = disasm_code_section(&section);
    assert_eq!(offsets(&listing), vec![0]);
    assert!(disasm_code_section(&[]).is_empty());
    assert!(disasm_code_section(&[0x00]).is_empty());
    assert!(disasm_code_section(&[0x43, 0x02]).is_empty());
}

#[test]
fn decode_at_gives_the_next_offset() {
    let section = unhex("51 01 27 05");
    let (instruction, next) = decode_at(&section, 2).unwrap();
    assert_eq!(next, 4);
    assert_eq!(instruction.offset, 2);
    assert_eq!(
        instruction.branch_target,
        Some(BranchType::Unconditional(8))
    );
    assert_eq!(decode_at(&section, 4), Err(Error::InsufficientData));
    assert_eq!(decode_at(&section, 1), Err(Error::InvalidOpcode(0x01)));
    assert_eq!(decode_at(&section, 3), Err(Error::InvalidOpcode(0x05)));
    // a branch to before the section is no instruction
    assert_eq!(decode_at(&[0x72, 0x85, 0x02], 0), Err(Error::IntConversion));
}

#[test]
fn instructions_print_as_lines() {
    let section = unhex("43 02 64 00 27 85");
    let listing = disasm_code_section(&section);
    assert_eq!(
        listing[0].to_string(),
        "00: 43 Wait source=02 argument=64    43026400\n"
    );
    assert_eq!(
        listing[1].to_string(),
        "04: 27 BranchAlwaysNear offset=85 => 80    2785\n"
    );
    assert_eq!(BranchType::Conditional(0x123).to_string(), "123");
    assert_eq!(BranchType::Unconditional(3).to_string(), "03");
}

#[test]
fn sections_print_with_their_names() {
    let bin = RcxBin::parse(&prog()).unwrap();
    let mut out = String::new();
    print_section(&bin.sections[0], &bin, &mut out);
    assert_eq!(
        out,
        "
.SECTION \"set_fwd\"
00: e1 SetMotorDirection code=81    e181
02: 21 SetMotorOnOff code=81    2181
"
    );
    let mut out = String::from("x");
    print_section(&bin.sections[1], &bin, &mut out);
    assert_eq!(
        out,
        "x
.SECTION \"main\"
00: 13 SetMotorPower motors=07 source=02 argument=07    13070207
04: e1 SetMotorDirection code=87    e187
06: 13 SetMotorPower motors=01 source=02 argument=32    13010232
0a: 17 CallSubroutine subroutine=00    1700
0c: 71 StartTask task=01    7101
"
    );
}

#[test]
fn sections_without_a_symbol_have_no_name() {
    let mut bin = RcxBin::parse(&prog()).unwrap();
    bin.sections[0].number = 5;
    let mut out = String::new();
    print_section(&bin.sections[0], &bin, &mut out);
    assert!(out.starts_with("\n.SECTION \n00: e1"));
}

#[test]
fn sections_without_code_are_not_disassembled() {
    let mut bin = RcxBin::parse(&prog()).unwrap();
    bin.sections[0].ty = rcx::binfmt::SectionType::Sound;
    let mut out = String::new();
    print_section(&bin.sections[0], &bin, &mut out);
    assert_eq!(out, "\n.SECTION \n");
}

#[test]
fn whole_disassembly() {
    let bin = RcxBin::parse(&prog()).unwrap();
    let out = print("prog.rcx", &bin);
    let expected = "Disassembly of `prog.rcx`
RCXI version 102 targeting Rcx
.SYMBOLS:
  Sub 0 \"set_fwd\"
  Task 0 \"main\"
  Task 1 \"loop_task\"
  Var 0 \"power\"
  Var 1 \"delta\"

.SECTION \"set_fwd\"
00: e1 SetMotorDirection code=81    e181
02: 21 SetMotorOnOff code=81    2181

.SECTION \"main\"
00: 13 SetMotorPower motors=07 source=02 argument=07    13070207
04: e1 SetMotorDirection code=87    e187
06: 13 SetMotorPower motors=01 source=02 argument=32    13010232
0a: 17 CallSubroutine subroutine=00    1700
0c: 71 StartTask task=01    7101

.SECTION \"loop_task\"
00: 14 SetVariable index=00 source=02 argument=32    1400023200
05: 14 SetVariable index=01 source=02 argument=05    1401020500
0a: 13 SetMotorPower motors=01 source=00 argument=00    13010000
0e: 24 AddToVariable index=00 source=00 argument=01    2400000100
13: 85 TestAndBranchNear opsrc1=42 src2=00 arg1=59 arg2=00 offset=08 => 21    85420059000008
1a: 14 SetVariable index=01 source=02 argument=fffe    140102feff
1f: 27 BranchAlwaysNear offset=0d => 2d    270d
21: 85 TestAndBranchNear opsrc1=02 src2=00 arg1=0b arg2=00 offset=06 => 2d    8502000b000006
28: 14 SetVariable index=01 source=02 argument=02    1401020200
2d: 43 Wait source=02 argument=64    43026400
31: 27 BranchAlwaysNear offset=a8 => 8a    27a8
";
    assert_eq!(out, expected);
}

fn failure(offset: usize, error: Error) -> DecodeFailure {
    DecodeFailure { offset, error }
}

#[test]
fn the_end_of_the_section_is_a_failure() {
    let (listing, failures) = sweep(&unhex("51 01"));
    assert_eq!(offsets(&listing), vec![0]);
    assert_eq!(failures, vec![failure(2, Error::InsufficientData)]);
    let (listing, failures) = sweep(&[]);
    assert!(listing.is_empty());
    assert_eq!(failures, vec![failure(0, Error::InsufficientData)]);
}

#[test]
fn failures_come_by_offset_and_once() {
    // 0: test, target 6 + 1 = 7; 7: branch to 8 + 0x7f = 135; then back to
    // what follows the test at 7 again, which is seen
    // 0: test -> 7 | fall 7
    let (listing, failures) = sweep(&unhex("85 00 00 00 00 00 01  27 7f"));
    assert_eq!(offsets(&listing), vec![0, 7]);
    assert_eq!(failures, vec![failure(135, Error::InsufficientData)]);
    // two branches to the same place beyond the section, and an unknown
    // opcode before it
    // 0: test, target 6 + 9 = 15, fall 7; 7: test, target 13 + 2 = 15,
    // fall 14; 14: 0x00 is no opcode
    let (listing, failures) = sweep(&unhex("85 00 00 00 00 00 09  85 00 00 00 00 00 02  00"));
    assert_eq!(offsets(&listing), vec![0, 7]);
    assert_eq!(
        failures,
        vec![
            failure(14, Error::InvalidOpcode(0x00)),
            failure(15, Error::InsufficientData),
        ]
    );
}

#[test]
fn a_branch_to_nowhere_is_a_failure() {
    // 0: play sound; 2: far branch back by more than there is
    let (listing, failures) = sweep(&unhex("51 01 72 85 02"));
    assert_eq!(offsets(&listing), vec![0]);
    assert_eq!(failures, vec![failure(2, Error::IntConversion)]);
}

#[test]
fn the_sample_task_fails_only_where_it_leaves_the_section() {
    let bin = RcxBin::parse(&prog()).unwrap();
    let (listing, failures) = sweep(&bin.sections[2].data);
    assert_eq!(listing, disasm_code_section(&bin.sections[2].data));
    assert_eq!(failures, vec![failure(138, Error::InsufficientData)]);
}

#[test]
fn offsets_print_in_hexadecimal_of_at_least_two_digits() {
    for offset in [0usize, 9, 15, 16, 255, 256, 0xabcdef] {
        let instruction = Instruction {
            offset,
            opcode: Opcodes::PlaySound(PlaySound { sound: 1 }),
            branch_target: Some(BranchType::Conditional(offset)),
        };
        assert_eq!(
            instruction.to_string(),
            format!("{offset:02x}: 51 PlaySound sound=01 => {offset:02x}    5101\n")
        );
    }
}
