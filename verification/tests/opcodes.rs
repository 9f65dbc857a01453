use rcx::codec::{decode_frame, encode_frame, is_header};
use rcx::opcodes::params::read_byte;
use rcx::opcodes::{
    parse_opcode, Alive, BranchAlwaysFar, Disasm, GetBatteryPower, GetBatteryPowerResponse,
    GetMemoryMapResponse, GetValueResponse, GetVersions, GetVersionsResponse, Opcode, Opcodes,
    PlaySound, PlayTone, Response, SetMessage, SetVariable, StartTaskDownload,
    TestAndBranchNear, TransferData, TransferDataResponse, UnlockFirmware,
    UnlockFirmwareResponse, Wait,
};
use rcx::Error;

// NB serialisation does not include the opcode as that is handled
// by separate logic which includes the alternate representation
// selection

#[test]
fn opcodes_play_sound_ser() {
    let op = PlaySound { sound: 2 };
    let mut buf = [0; 100];
    let len = op.serialise(&mut buf).unwrap();
    assert_eq!(&buf[..len], &[2]);
}

#[test]
fn opcodes_battery_response() {
    let buf = &[
        0x55, 0xff, 0x00, 0xcf, 0x30, 0x43, 0xbc, 0x1e, 0xe1, 0x30, 0xcf,
    ];
    let resp = GetBatteryPowerResponse::deserialise(buf).unwrap();
    assert_eq!(resp, GetBatteryPowerResponse { millivolts: 7747 });
}

#[test]
fn play_sound_ser() {
    let op = PlaySound { sound: 2 };
    let mut buf = [0; 100];
    let len = op.serialise(&mut buf).unwrap();
    assert_eq!(&buf[..len], &[2]);
}

#[test]
fn battery_response() {
    let buf = &[
        0x55, 0xff, 0x00, 0xcf, 0x30, 0x43, 0xbc, 0x1e, 0xe1, 0x30, 0xcf,
    ];
    let resp = GetBatteryPowerResponse::deserialise(buf).unwrap();
    assert_eq!(resp, GetBatteryPowerResponse { millivolts: 7747 });
}

#[test]
fn versions() {
    let v = GetVersionsResponse {
        rom: [768, 256],
        firmware: [768, 515],
    };
    assert_eq!(v.to_string(), "ROM: 3.1; FW: 3.302");
}

#[test]
fn header_bytes_are_recognised() {
    assert!(is_header(0x00));
    assert!(is_header(0x55));
    assert!(is_header(0xff));
    assert!(!is_header(0x01));
    assert!(!is_header(0xcf));
}

#[test]
fn play_sound_frame_on_the_wire() {
    let op = PlaySound { sound: 2 };
    let wire = encode_frame(op.request_opcode(), &op.encode());
    assert_eq!(wire, vec![0x55, 0xff, 0x51, 0xae, 0x02, 0xfd, 0x53, 0xac]);
}

#[test]
fn frame_checksum_wraps() {
    let wire = encode_frame(0xf7, &[0xff, 0x10]);
    // 0xf7 + 0xff + 0x10 = 0x206
    assert_eq!(
        wire,
        vec![0x55, 0xff, 0xf7, 0x08, 0xff, 0x00, 0x10, 0xef, 0x06, 0xf9]
    );
}

#[test]
fn frame_round_trip() {
    let payload = vec![0x00, 0x55, 0xff, 0x7f, 0x80];
    let wire = encode_frame(0x45, &payload);
    assert_eq!(decode_frame(&wire, payload.len()), Ok((0x45, payload)));
}

#[test]
fn frame_without_payload_round_trip() {
    let wire = encode_frame(0x10, &[]);
    assert_eq!(wire, vec![0x55, 0xff, 0x10, 0xef, 0x10, 0xef]);
    assert_eq!(decode_frame(&wire, 0), Ok((0x10, vec![])));
}

#[test]
fn every_changed_byte_of_a_frame_is_caught() {
    let payload = vec![0x02, 0x64, 0x00];
    let wire = encode_frame(0x43, &payload);
    for i in 3..wire.len() {
        for delta in 1..=255u8 {
            let mut changed = wire.clone();
            changed[i] = changed[i].wrapping_add(delta);
            assert_eq!(
                decode_frame(&changed, payload.len()),
                Err(Error::Checksum),
                "byte {i} changed by {delta}"
            );
        }
    }
    let mut changed = wire.clone();
    changed[2] = 0x44;
    assert_eq!(decode_frame(&changed, payload.len()), Err(Error::Checksum));
}

#[test]
fn truncated_frame_is_insufficient_data() {
    let wire = encode_frame(0xcf, &[0x43, 0x1e]);
    for len in 0..wire.len() {
        assert_eq!(
            decode_frame(&wire[..len], 2),
            Err(Error::InsufficientData),
            "{len} bytes"
        );
    }
    assert_eq!(decode_frame(&[], 0), Err(Error::InsufficientData));
    assert_eq!(
        decode_frame(&[0x55, 0xff, 0x00], 0),
        Err(Error::InsufficientData)
    );
}

#[test]
fn wrong_sum_is_checksum_error() {
    // pairs are sound, the sum is not
    let buf = [0x55, 0xff, 0xcf, 0x30, 0x43, 0xbc, 0x1e, 0xe1, 0x31, 0xce];
    assert_eq!(
        GetBatteryPowerResponse::deserialise(&buf),
        Err(Error::Checksum)
    );
}

#[test]
fn bad_complement_comes_before_the_end_of_input() {
    // the first pair is broken and the frame is too short as well
    assert_eq!(decode_frame(&[0xcf, 0x31, 0x43], 2), Err(Error::Checksum));
    // the first pair is sound, then the input ends
    assert_eq!(
        decode_frame(&[0xcf, 0x30, 0x43], 2),
        Err(Error::InsufficientData)
    );
}

#[test]
fn reply_opcode_is_taken_as_it_comes() {
    // a reply under another opcode decodes all the same
    let wire = encode_frame(0xc7, &[0x43, 0x1e]);
    assert_eq!(
        GetBatteryPowerResponse::deserialise(&wire[2..]),
        Ok(GetBatteryPowerResponse { millivolts: 7747 })
    );
}

#[test]
fn value_response_is_signed() {
    let wire = encode_frame(0xed, &[0xfe, 0xff]);
    assert_eq!(
        GetValueResponse::deserialise(&wire[2..]),
        Ok(GetValueResponse { value: -2 })
    );
}

#[test]
fn versions_response_decodes_words() {
    let wire = encode_frame(0xea, &[0x00, 0x03, 0x00, 0x01, 0x00, 0x03, 0x03, 0x02]);
    let resp = GetVersionsResponse::deserialise(&wire[2..]).unwrap();
    assert_eq!(
        resp,
        GetVersionsResponse {
            rom: [768, 256],
            firmware: [768, 515]
        }
    );
    assert_eq!(resp.to_string(), "ROM: 3.1; FW: 3.302");
}

#[test]
fn memory_map_response_decodes() {
    let mut payload = Vec::new();
    for i in 0..94u16 {
        let word = 0x8000 + 3 * i;
        payload.push((word % 256) as u8);
        payload.push((word / 256) as u8);
    }
    let wire = encode_frame(0xdf, &payload);
    let resp = GetMemoryMapResponse::deserialise(&wire[2..]).unwrap();
    for i in 0..94usize {
        assert_eq!(resp.map[i], 0x8000 + 3 * i as u16);
    }
}

#[test]
fn unlock_response_decodes() {
    let wire = encode_frame(0x5a, b"Just a bit off the block!");
    let resp = UnlockFirmwareResponse::deserialise(&wire[2..]).unwrap();
    assert_eq!(&resp.data, b"Just a bit off the block!");
}

#[test]
fn transfer_response_decodes() {
    let wire = encode_frame(0xba, &[3]);
    assert_eq!(
        TransferDataResponse::deserialise(&wire[2..]),
        Ok(TransferDataResponse { status: 3 })
    );
}

#[test]
fn metadata() {
    assert_eq!(Alive {}.request_opcode(), 0x10);
    assert_eq!(Alive {}.response_opcode(), Some(0xef));
    assert_eq!(GetBatteryPower {}.request_opcode(), 0x30);
    assert_eq!(GetBatteryPower {}.response_opcode(), Some(0xcf));
    assert_eq!(PlaySound { sound: 0 }.request_opcode(), 0x51);
    assert_eq!(PlaySound { sound: 0 }.response_opcode(), Some(0xae));
    let message = SetMessage { message: 1 };
    assert_eq!(message.request_opcode(), 0xf7);
    assert_eq!(message.response_opcode(), None);
    assert!(!message.supports_alternate());
    assert!(Alive {}.supports_alternate());
    let wait = Wait {
        source: 2,
        argument: 100,
    };
    assert_eq!(wait.response_opcode(), None);
    assert!(!wait.is_unconditional_branch());
    assert!(!wait.is_conditional_branch());
    let far = BranchAlwaysFar {
        offset: 1,
        extension: 2,
    };
    assert!(far.is_unconditional_branch());
    assert!(!far.is_conditional_branch());
    let test = TestAndBranchNear {
        opsrc1: 0,
        src2: 0,
        arg1: 0,
        arg2: 0,
        offset: 0,
    };
    assert!(test.is_conditional_branch());
    assert!(!test.is_unconditional_branch());
    assert_eq!(Opcodes::TestAndBranchNear(test).branch_target(), Some(0));
    assert_eq!(Opcodes::Wait(wait).branch_target(), None);
}

#[test]
fn parameters_are_little_endian() {
    let op = PlayTone {
        frequency: 440,
        duration: 50,
    };
    assert_eq!(op.encode(), vec![0xb8, 0x01, 0x32]);
    let op = PlayTone {
        frequency: -2,
        duration: -1,
    };
    assert_eq!(op.encode(), vec![0xfe, 0xff, 0xff]);
    let op = StartTaskDownload {
        unknown: 0,
        task: 9,
        length: 0x1234,
    };
    assert_eq!(op.encode(), vec![0x00, 0x09, 0x00, 0x34, 0x12]);
    let op = GetVersions {
        key: [1, 3, 5, 7, 11],
    };
    assert_eq!(op.encode(), vec![1, 3, 5, 7, 11]);
    let op = TransferData {
        index: 1,
        length: 3,
        data: vec![0xaa, 0xbb, 0xcc],
        checksum: 0x31,
    };
    assert_eq!(
        op.encode(),
        vec![0x01, 0x00, 0x03, 0x00, 0xaa, 0xbb, 0xcc, 0x31]
    );
}

#[test]
fn serialise_leaves_the_rest_of_the_buffer() {
    let op = PlayTone {
        frequency: 440,
        duration: 50,
    };
    let mut buf = [0x77; 5];
    assert_eq!(op.serialise(&mut buf), Ok(3));
    assert_eq!(buf, [0xb8, 0x01, 0x32, 0x77, 0x77]);
}

#[test]
fn serialise_refuses_a_short_buffer() {
    let op = PlayTone {
        frequency: 440,
        duration: 50,
    };
    let mut buf = [0x77; 2];
    assert_eq!(
        op.serialise(&mut buf),
        Err(Error::Io("failed to write whole buffer".to_string()))
    );
    assert_eq!(buf, [0x77, 0x77]);
    let mut buf = [0x77; 3];
    assert_eq!(op.serialise(&mut buf), Ok(3));
}

#[test]
fn read_byte_moves_the_counter() {
    let bin = [7, 8];
    let mut pc = 1;
    assert_eq!(read_byte(&bin, &mut pc), Ok(8));
    assert_eq!(pc, 2);
    assert_eq!(read_byte(&bin, &mut pc), Err(Error::InsufficientData));
    assert_eq!(pc, 2);
}

#[test]
fn decode_undoes_encode() {
    let ops = vec![
        Opcodes::Alive(Alive {}),
        Opcodes::PlaySound(PlaySound { sound: 5 }),
        Opcodes::PlayTone(PlayTone {
            frequency: -32768,
            duration: -128,
        }),
        Opcodes::PlayTone(PlayTone {
            frequency: 32767,
            duration: 127,
        }),
        Opcodes::SetVariable(SetVariable {
            index: 31,
            source: 2,
            argument: -2,
        }),
        Opcodes::GetVersions(GetVersions {
            key: [1, 3, 5, 7, 11],
        }),
        Opcodes::UnlockFirmware(UnlockFirmware {
            key: [0x4c, 0x45, 0x47, 0x4f, 0xae],
        }),
        Opcodes::TestAndBranchNear(TestAndBranchNear {
            opsrc1: 0x42,
            src2: 0,
            arg1: 0x59,
            arg2: 0,
            offset: 8,
        }),
        Opcodes::BranchAlwaysFar(BranchAlwaysFar {
            offset: 0x85,
            extension: 3,
        }),
    ];
    for op in ops {
        let mut bin = vec![op.request_opcode()];
        bin.extend(op.encode());
        let mut pc = 0;
        assert_eq!(parse_opcode(&bin, &mut pc), Ok(op));
        assert_eq!(pc, bin.len());
    }
}

#[test]
fn typed_decode_undoes_encode() {
    for frequency in [-32768i16, -1, 0, 1, 255, 256, 32767] {
        for duration in [-128i8, -1, 0, 1, 127] {
            let op = PlayTone {
                frequency,
                duration,
            };
            let bin = op.encode();
            let mut pc = 0;
            assert_eq!(PlayTone::disasm(&bin, &mut pc), Ok(op));
            assert_eq!(pc, 3);
        }
    }
}

#[test]
fn parse_opcode_reads_from_the_counter() {
    let bin = [0xff, 0x43, 0x02, 0x64, 0x00, 0x21];
    let mut pc = 1;
    assert_eq!(
        parse_opcode(&bin, &mut pc),
        Ok(Opcodes::Wait(Wait {
            source: 2,
            argument: 100
        }))
    );
    assert_eq!(pc, 5);
}

#[test]
fn unknown_opcode_is_invalid() {
    let bin = [0x00, 0x01];
    let mut pc = 0;
    assert_eq!(parse_opcode(&bin, &mut pc), Err(Error::InvalidOpcode(0x00)));
    assert_eq!(pc, 1);
    // the alternate form of an opcode is no instruction
    let bin = [0x18];
    let mut pc = 0;
    assert_eq!(parse_opcode(&bin, &mut pc), Err(Error::InvalidOpcode(0x18)));
}

#[test]
fn data_of_variable_length_does_not_decode() {
    let bin = [0x45, 0x01, 0x00, 0x01, 0x00, 0xaa, 0xaa];
    let mut pc = 0;
    assert_eq!(parse_opcode(&bin, &mut pc), Err(Error::InvalidOpcode(0x45)));
}

#[test]
fn instruction_cut_short_is_insufficient_data() {
    let bin = [0x43, 0x02, 0x64];
    let mut pc = 0;
    assert_eq!(parse_opcode(&bin, &mut pc), Err(Error::InsufficientData));
    assert_eq!(pc, 3);
    let mut pc = 3;
    assert_eq!(parse_opcode(&bin, &mut pc), Err(Error::InsufficientData));
    assert_eq!(pc, 3);
    let mut pc = 7;
    assert_eq!(parse_opcode(&bin, &mut pc), Err(Error::InsufficientData));
    assert_eq!(pc, 7);
}

#[test]
fn opcodes_print_name_and_parameters() {
    assert_eq!(Opcodes::Alive(Alive {}).to_string(), "Alive");
    assert_eq!(PlaySound { sound: 2 }.to_string(), "PlaySound sound=02");
    assert_eq!(
        PlayTone {
            frequency: 440,
            duration: -1
        }
        .to_string(),
        "PlayTone frequency=1b8 duration=ff"
    );
    assert_eq!(
        SetVariable {
            index: 1,
            source: 2,
            argument: -2
        }
        .to_string(),
        "SetVariable index=01 source=02 argument=fffe"
    );
    assert_eq!(
        GetVersions {
            key: [1, 3, 5, 7, 11]
        }
        .to_string(),
        "GetVersions key=[01, 03, 05, 07, 0b]"
    );
    assert_eq!(
        TransferData {
            index: 1,
            length: 0,
            data: vec![],
            checksum: 0
        }
        .to_string(),
        "TransferData index=01 length=00 data=[] checksum=00"
    );
}

#[test]
fn parameters_print_in_hexadecimal_of_at_least_two_digits() {
    for value in [0u8, 9, 10, 15, 16, 255] {
        assert_eq!(
            PlaySound { sound: value }.to_string(),
            format!("PlaySound sound={value:02x?}")
        );
    }
    for frequency in [0i16, 1, 15, 16, 255, 256, 4095, 4096, 32767, -1, -2, -255, -32768] {
        for duration in [0i8, 1, 15, 16, 127, -1, -128] {
            assert_eq!(
                PlayTone {
                    frequency,
                    duration
                }
                .to_string(),
                format!("PlayTone frequency={frequency:02x?} duration={duration:02x?}")
            );
        }
    }
    let key = [0u8, 1, 0x0f, 0x10, 0xff];
    assert_eq!(
        GetVersions { key }.to_string(),
        format!("GetVersions key={key:02x?}")
    );
    let data = vec![0u8, 0xab, 7];
    assert_eq!(
        TransferData {
            index: -1,
            length: 3,
            data: data.clone(),
            checksum: 0xb2
        }
        .to_string(),
        format!("TransferData index={:02x?} length=03 data={data:02x?} checksum=b2", -1i16)
    );
}

#[test]
fn versions_print_with_their_bytes_swapped() {
    for (rom, firmware) in [([0u16, 1], [0x0100u16, 0xffff]), ([0x1234, 0x00ff], [0xff00, 0x0a0b])] {
        let v = GetVersionsResponse { rom, firmware };
        assert_eq!(
            v.to_string(),
            format!(
                "ROM: {:x}.{:x}; FW: {:x}.{:x}",
                rom[0].swap_bytes(),
                rom[1].swap_bytes(),
                firmware[0].swap_bytes(),
                firmware[1].swap_bytes()
            )
        );
    }
}
