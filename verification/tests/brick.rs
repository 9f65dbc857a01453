use rcx::opcodes::{Opcode, PlaySound};
use rcx::tower::{read_deadline, Link};
use rcx::{
    Error, MotorDirection, MotorPowerState, MotorSelection, MotorState, Rcx, SensorMode,
    SensorType, Sound, SourceType, TransmitterRange,
};

fn fresh() -> Rcx {
    Rcx::new(Link::new(0))
}

#[test]
fn alternate_bit_toggles() {
    let mut rcx = fresh();
    let first = rcx.alive().unwrap();
    let second = rcx.alive().unwrap();
    let third = rcx.alive().unwrap();
    assert_eq!(first, vec![0x55, 0xff, 0x10, 0xef, 0x10, 0xef]);
    assert_eq!(second, vec![0x55, 0xff, 0x18, 0xe7, 0x18, 0xe7]);
    assert_eq!(third, first);
}

#[test]
fn alternate_bit_alternates_over_a_run() {
    let mut rcx = fresh();
    for k in 0..100 {
        let wire = rcx.play_sound(Sound::Blip).unwrap();
        assert_eq!(wire[2] & 0x08, if k % 2 == 1 { 0x08 } else { 0 });
        assert_eq!(wire[2] & 0xf7, 0x51);
    }
}

#[test]
fn play_sound_on_a_fresh_link() {
    let mut link = Link::new(0);
    let wire = link.send(&PlaySound { sound: 2 }).unwrap();
    assert_eq!(wire, vec![0x55, 0xff, 0x51, 0xae, 0x02, 0xfd, 0x53, 0xac]);
    assert!(link.use_alternate());
    let wire = link.send(&PlaySound { sound: 2 }).unwrap();
    assert_eq!(wire, vec![0x55, 0xff, 0x59, 0xa6, 0x02, 0xfd, 0x5b, 0xa4]);
    assert!(!link.use_alternate());
}

#[test]
fn motor_power_is_validated() {
    let mut rcx = fresh();
    assert_eq!(
        rcx.set_motor_power(MotorSelection::A(), 9),
        Err(Error::InvalidData("Motor power must be 0-7"))
    );
    assert_eq!(
        rcx.set_motor_power(MotorSelection::A(), 8),
        Err(Error::InvalidData("Motor power must be 0-7"))
    );
    // nothing was sent: the link is as it was
    assert_eq!(rcx, fresh());
    let wire = rcx.set_motor_power(MotorSelection::A(), 7).unwrap();
    assert_eq!(
        wire,
        vec![0x55, 0xff, 0x13, 0xec, 0x01, 0xfe, 0x02, 0xfd, 0x07, 0xf8, 0x1d, 0xe2]
    );
}

#[test]
fn arguments_out_of_range_are_refused() {
    let mut rcx = fresh();
    assert_eq!(
        rcx.set_program_number(5),
        Err(Error::InvalidData("Program number must be 0-4"))
    );
    assert_eq!(
        rcx.set_sensor_mode(3, SensorMode::Raw),
        Err(Error::InvalidData("Sensor index must be 0-2"))
    );
    assert_eq!(
        rcx.set_sensor_type(3, SensorType::Light),
        Err(Error::InvalidData("Sensor index must be 0-2"))
    );
    assert_eq!(
        rcx.set_time(24, 0),
        Err(Error::InvalidData(
            "Hours must be 0-23 and minutes must be 0-59"
        ))
    );
    assert_eq!(
        rcx.set_time(0, 60),
        Err(Error::InvalidData(
            "Hours must be 0-23 and minutes must be 0-59"
        ))
    );
    assert_eq!(
        rcx.start_subroutine_download(8, 0),
        Err(Error::InvalidData("Subroutine must be 0-7"))
    );
    assert_eq!(
        rcx.start_subroutine_download(-1, 0),
        Err(Error::InvalidData("Subroutine must be 0-7"))
    );
    assert_eq!(
        rcx.start_task(10),
        Err(Error::InvalidData("Task must be 0-9"))
    );
    assert_eq!(
        rcx.start_task_download(10, 0),
        Err(Error::InvalidData("Task must be 0-9"))
    );
    assert_eq!(
        rcx.stop_task(10),
        Err(Error::InvalidData("Task must be 0-9"))
    );
    assert_eq!(rcx, fresh());
}

#[test]
fn arguments_at_the_edge_are_accepted() {
    let mut rcx = fresh();
    assert!(rcx.set_program_number(4).is_ok());
    assert!(rcx.set_sensor_mode(2, SensorMode::Angle).is_ok());
    assert!(rcx.set_sensor_type(2, SensorType::Rotation).is_ok());
    assert!(rcx.set_time(23, 59).is_ok());
    assert!(rcx.start_subroutine_download(7, 10).is_ok());
    assert!(rcx.start_subroutine_download(0, -1).is_ok());
    assert!(rcx.start_task(9).is_ok());
    assert!(rcx.start_task_download(9, 10).is_ok());
    assert!(rcx.stop_task(9).is_ok());
}

#[test]
fn requests_carry_their_arguments() {
    let mut rcx = fresh();
    let wire = rcx.get_value(SourceType::SensorValue, 1).unwrap();
    assert_eq!(
        wire,
        vec![0x55, 0xff, 0x12, 0xed, 0x09, 0xf6, 0x01, 0xfe, 0x1c, 0xe3]
    );
    let wire = rcx.get_versions().unwrap();
    assert_eq!(
        wire,
        vec![
            0x55, 0xff, 0x1d, 0xe2, 0x01, 0xfe, 0x03, 0xfc, 0x05, 0xfa, 0x07, 0xf8, 0x0b, 0xf4,
            0x38, 0xc7
        ]
    );
    let wire = rcx.play_tone(440, 50).unwrap();
    assert_eq!(
        wire,
        vec![0x55, 0xff, 0x23, 0xdc, 0xb8, 0x47, 0x01, 0xfe, 0x32, 0xcd, 0x0e, 0xf1]
    );
    let wire = rcx.set_sensor_mode(1, SensorMode::Percentage).unwrap();
    assert_eq!(
        wire,
        vec![0x55, 0xff, 0x4a, 0xb5, 0x01, 0xfe, 0x04, 0xfb, 0x4f, 0xb0]
    );
    let wire = rcx.set_transmitter_range(TransmitterRange::Long).unwrap();
    assert_eq!(wire, vec![0x55, 0xff, 0x31, 0xce, 0x01, 0xfe, 0x32, 0xcd]);
    let wire = rcx.start_task_download(3, 0x0102).unwrap();
    assert_eq!(
        wire,
        vec![
            0x55, 0xff, 0x2d, 0xd2, 0x00, 0xff, 0x03, 0xfc, 0x00, 0xff, 0x02, 0xfd, 0x01, 0xfe,
            0x33, 0xcc
        ]
    );
}

#[test]
fn motor_direction_sets_the_forward_flag() {
    let mut rcx = fresh();
    let wire = rcx
        .set_motor_direction(MotorSelection::A(), MotorDirection::Forward)
        .unwrap();
    assert_eq!(wire[2], 0xe1);
    assert_eq!(wire[4], 0x81);
    let wire = rcx
        .set_motor_direction(MotorSelection::A() | MotorSelection::C(), MotorDirection::Reverse)
        .unwrap();
    assert_eq!(wire[2], 0xe9);
    assert_eq!(wire[4], 0x05);
}

#[test]
fn motor_state_sets_the_on_and_off_flags() {
    let mut rcx = fresh();
    let all = MotorSelection::A() | MotorSelection::B() | MotorSelection::C();
    assert_eq!(all.bitfield, 0x07);
    let wire = rcx.set_motor_on_off(all, MotorPowerState::On).unwrap();
    assert_eq!(wire[4], 0x87);
    let wire = rcx.set_motor_on_off(all, MotorPowerState::Off).unwrap();
    assert_eq!(wire[4], 0x47);
    let wire = rcx.set_motor_on_off(MotorSelection::B(), MotorPowerState::Float).unwrap();
    assert_eq!(wire[4], 0x02);
}

#[test]
fn set_message_is_built_like_any_request() {
    let mut rcx = fresh();
    let wire = rcx.set_message(7).unwrap();
    assert_eq!(wire, vec![0x55, 0xff, 0xf7, 0x08, 0x07, 0xf8, 0xfe, 0x01]);
    let wire = rcx.set_message(7).unwrap();
    assert_eq!(wire[2], 0xff);
}

#[test]
fn transfer_data_carries_its_block() {
    let mut rcx = fresh();
    let wire = rcx.transfer_data(1, 2, vec![0xaa, 0xbb], 0x65).unwrap();
    assert_eq!(
        wire,
        vec![
            0x55, 0xff, 0x45, 0xba, 0x01, 0xfe, 0x00, 0xff, 0x02, 0xfd, 0x00, 0xff, 0xaa, 0x55,
            0xbb, 0x44, 0x65, 0x9a, 0x12, 0xed
        ]
    );
}

#[test]
fn a_block_too_long_for_a_frame_toggles_the_bit_all_the_same() {
    let mut rcx = fresh();
    let r = rcx.transfer_data(1, 0, vec![0; 1020], 0);
    assert_eq!(
        r,
        Err(Error::Io("failed to write whole buffer".to_string()))
    );
    let wire = rcx.alive().unwrap();
    assert_eq!(wire[2], 0x18);
    let r = rcx.transfer_data(1, 0, vec![0; 1019], 0);
    assert_eq!(r.unwrap().len(), 2 + 2 * (1 + 1024) + 2);
}

#[test]
fn unlock_firmware_sends_the_key() {
    let mut rcx = fresh();
    let wire = rcx.unlock_firmware().unwrap();
    let mut logical = vec![0xa5];
    logical.extend_from_slice(b"LEGO\xae");
    let mut expected = vec![0x55, 0xff];
    let mut sum = 0u8;
    for b in logical {
        expected.push(b);
        expected.push(!b);
        sum = sum.wrapping_add(b);
    }
    expected.push(sum);
    expected.push(!sum);
    assert_eq!(wire, expected);
}

#[test]
fn unlock_reply_is_checked() {
    let good = rcx::codec::encode_frame(0x5a, b"Just a bit off the block!");
    assert_eq!(Rcx::unlocked(&good[2..]), Ok(()));
    let bad = rcx::codec::encode_frame(0x5a, b"Just a bit off the block?");
    assert_eq!(
        Rcx::unlocked(&bad[2..]),
        Err(Error::RcxError("Unexpected response from brick"))
    );
    assert_eq!(Rcx::unlocked(&good[..20]), Err(Error::InsufficientData));
    let mut broken = good.clone();
    broken[7] ^= 1;
    assert_eq!(Rcx::unlocked(&broken), Err(Error::Checksum));
}

#[test]
fn transmissions_are_paced() {
    let mut link = Link::new(1000);
    assert_eq!(link.tx_delay(1000), 300);
    assert_eq!(link.tx_delay(1001), 299);
    assert_eq!(link.tx_delay(1299), 1);
    assert_eq!(link.tx_delay(1300), 0);
    assert_eq!(link.tx_delay(5000), 0);
    // a clock that went back counts as no time passed
    assert_eq!(link.tx_delay(900), 300);
    link.sent(1300);
    assert_eq!(link.tx_delay(1300), 300);
    assert_eq!(link.tx_delay(1600), 0);
}

#[test]
fn sessions_record_transmissions() {
    let mut rcx = Rcx::new(Link::new(0));
    rcx.alive().unwrap();
    assert_eq!(rcx.tower().tx_delay(100), 200);
    rcx.sent(300);
    assert_eq!(rcx.tower().tx_delay(400), 200);
    assert!(rcx.tower().use_alternate());
}

#[test]
fn reads_time_out_after_a_second() {
    assert_eq!(read_deadline(500, 500), Ok(()));
    assert_eq!(read_deadline(500, 1499), Ok(()));
    assert_eq!(read_deadline(500, 1500), Err(Error::Timeout));
    assert_eq!(read_deadline(500, u64::MAX), Err(Error::Timeout));
    assert_eq!(read_deadline(500, 100), Ok(()));
}

#[test]
fn motor_state_decodes() {
    assert_eq!(
        MotorState::try_from(0x85),
        Ok(MotorState {
            power: 5,
            direction: MotorDirection::Forward,
            state: MotorPowerState::On
        })
    );
    assert_eq!(
        MotorState::try_from(0x4f),
        Ok(MotorState {
            power: 7,
            direction: MotorDirection::Reverse,
            state: MotorPowerState::Off
        })
    );
    assert_eq!(
        MotorState::try_from(0x00),
        Ok(MotorState {
            power: 0,
            direction: MotorDirection::Forward,
            state: MotorPowerState::Float
        })
    );
    assert_eq!(
        MotorState::try_from(0xc0),
        Err(Error::InvalidData("Invalid motor power state"))
    );
}

#[test]
fn codes_of_the_enumerations() {
    assert_eq!(SourceType::Variable.to_byte(), 0);
    assert_eq!(SourceType::Random.to_byte(), 4);
    assert_eq!(SourceType::CurrentProgram.to_byte(), 8);
    assert_eq!(SourceType::Message.to_byte(), 15);
    assert_eq!(Sound::Blip.to_byte(), 0);
    assert_eq!(Sound::FastUpwardTones.to_byte(), 5);
    assert_eq!(SensorMode::Raw.to_byte(), 0);
    assert_eq!(SensorMode::Angle.to_byte(), 7);
    assert_eq!(SensorType::Light.to_byte(), 3);
    assert_eq!(TransmitterRange::Short.to_byte(), 0);
    assert_eq!(PlaySound { sound: 1 }.request_opcode(), 0x51);
}
