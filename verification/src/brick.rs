//! The commands of the brick.
//!
//! Every command checks its arguments, builds its request and hands back
//! the frame to put on the wire. A command with an argument out of range is
//! refused before anything is built: the link is left as it was, and no
//! byte reaches the wire. What the brick answers is decoded by the reply
//! record of the request.

use vstd::prelude::*;
use crate::enums::{
    MotorDirection, MotorPowerState, MotorSelection, SensorMode, SensorType, Sound, SourceType,
    TransmitterRange,
};
use crate::errors::Error;
use crate::opcodes::{
    deserialised, short_buffer_message, Alive, Disasm, GetBatteryPower, GetMemoryMap, GetValue,
    GetVersions, Opcode, PlaySound, PlayTone, PowerOff, Response, SetDisplay, SetMessage,
    SetMotorDirection, SetMotorOnOff, SetMotorPower, SetPowerDownDelay, SetProgramNumber,
    SetSensorMode, SetSensorType, SetTime, SetTransmitterRange, StartFirmwareDownload,
    StartSubroutineDownload, StartTask, StartTaskDownload, StopAllTasks, StopTask, TransferData,
    UnlockFirmware, UnlockFirmwareResponse,
};
use crate::tower::{request_frame, Link, SCRATCH_SIZE};

verus! {

/// A session with one brick. The session is owned by one caller at a
/// time: it cannot be copied.
#[derive(Debug, PartialEq, Eq)]
pub struct Rcx {
    tower: Link,
}

/// Whether a command built the frame of a request: the alternate bit of
/// the link is toggled, and the frame carries the request in the form that
/// the link was in. A request with more parameter bytes than a frame can
/// carry yields no frame, but toggles the bit all the same.
pub open spec fn issues<O: Opcode>(
    before: Rcx,
    after: Rcx,
    r: Result<Vec<u8>, Error>,
    msg: O,
) -> bool {
    &&& after.link() == before.link().toggled()
    &&& after.link().alternate() == !before.link().alternate()
    &&& after.link().last_tx() == before.link().last_tx()
    &&& match r {
        Ok(wire) => msg.encoding().len() <= SCRATCH_SIZE && wire@ == request_frame(
            msg,
            before.link().alternate(),
        ),
        Err(e) => {
            &&& msg.encoding().len() > SCRATCH_SIZE
            &&& e matches Error::Io(message)
            &&& message@ == short_buffer_message()
        },
    }
}

/// Whether a command refused its arguments: nothing was built, and the
/// session is as it was.
pub open spec fn refuses(
    before: Rcx,
    after: Rcx,
    r: Result<Vec<u8>, Error>,
    message: &'static str,
) -> bool {
    after == before && r == Err::<Vec<u8>, Error>(Error::InvalidData(message))
}

/// The key that unlocks the firmware: `LEGO` and the sign for "registered".
pub open spec fn unlock_key() -> [u8; 5] {
    [0x4cu8, 0x45u8, 0x47u8, 0x4fu8, 0xaeu8]
}

/// What unlocked firmware answers: `Just a bit off the block!`
pub open spec fn unlock_greeting() -> Seq<u8> {
    seq![
        0x4au8, 0x75u8, 0x73u8, 0x74u8, 0x20u8, 0x61u8, 0x20u8, 0x62u8, 0x69u8, 0x74u8, 0x20u8,
        0x6fu8, 0x66u8, 0x66u8, 0x20u8, 0x74u8, 0x68u8, 0x65u8, 0x20u8, 0x62u8, 0x6cu8, 0x6fu8,
        0x63u8, 0x6bu8, 0x21u8,
    ]
}

/// The code byte of the command that sets the direction of motors.
pub open spec fn direction_code(motor: MotorSelection, direction: MotorDirection) -> u8 {
    if direction == MotorDirection::Forward {
        motor.bitfield | 0x80
    } else {
        motor.bitfield
    }
}

/// The code byte of the command that turns motors on or off.
pub open spec fn power_state_code(motor: MotorSelection, state: MotorPowerState) -> u8 {
    match state {
        MotorPowerState::On => motor.bitfield | 0x80,
        MotorPowerState::Off => motor.bitfield | 0x40,
        MotorPowerState::Float => motor.bitfield,
    }
}

impl Rcx {
    /// The link of the session.
    pub closed spec fn link(&self) -> Link {
        self.tower
    }

    /// A session over a link.
    pub fn new(tower: Link) -> (rcx: Self)
        ensures
            rcx.link() == tower,
    {
        Self { tower }
    }

    /// The link of the session, to ask it when the next frame may go out.
    pub fn tower(&self) -> (link: &Link)
        ensures
            *link == self.link(),
    {
        &self.tower
    }

    /// Records that the frame of the last command was written at a time.
    pub fn sent(&mut self, now: u64)
        requires
            old(self).link().may_transmit(now),
        ensures
            final(self).link() == old(self).link().written(now),
    {
        self.tower.sent(now);
    }

    /// Asks the brick whether it is there.
    pub fn alive(&mut self) -> (r: Result<Vec<u8>, Error>)
        ensures
            issues(*old(self), *final(self), r, (Alive {})),
            r is Ok,
    {
        let msg = Alive {};
        proof {
            msg.encoded_size();
        }
        self.tower.send(&msg)
    }

    /// Asks for the battery voltage.
    /// The reply decodes as a [`GetBatteryPowerResponse`].
    pub fn get_battery_power(&mut self) -> (r: Result<Vec<u8>, Error>)
        ensures
            issues(*old(self), *final(self), r, (GetBatteryPower {})),
            r is Ok,
    {
        let msg = GetBatteryPower {};
        proof {
            msg.encoded_size();
        }
        self.tower.send(&msg)
    }

    /// Asks for the memory map.
    /// The reply decodes as a [`GetMemoryMapResponse`].
    pub fn get_memory_map(&mut self) -> (r: Result<Vec<u8>, Error>)
        ensures
            issues(*old(self), *final(self), r, (GetMemoryMap {})),
            r is Ok,
    {
        let msg = GetMemoryMap {};
        proof {
            msg.encoded_size();
        }
        self.tower.send(&msg)
    }

    /// Reads a value from a source.
    /// The reply decodes as a [`GetValueResponse`].
    pub fn get_value(&mut self, source: SourceType, argument: u8) -> (r: Result<Vec<u8>, Error>)
        ensures
            issues(*old(self), *final(self), r, (GetValue { source: source.code(), argument })),
            r is Ok,
    {
        let msg = GetValue { source: source.to_byte(), argument };
        proof {
            msg.encoded_size();
        }
        self.tower.send(&msg)
    }

    /// Asks for the versions of ROM and firmware.
    /// The reply decodes as a [`GetVersionsResponse`].
    pub fn get_versions(&mut self) -> (r: Result<Vec<u8>, Error>)
        ensures
            issues(*old(self), *final(self), r, (GetVersions { key: [1u8, 3u8, 5u8, 7u8, 11u8] })),
            r is Ok,
    {
        let msg = GetVersions { key: [1, 3, 5, 7, 11] };
        proof {
            msg.encoded_size();
        }
        self.tower.send(&msg)
    }

    /// Plays one of the built-in sounds.
    pub fn play_sound(&mut self, sound: Sound) -> (r: Result<Vec<u8>, Error>)
        ensures
            issues(*old(self), *final(self), r, (PlaySound { sound: sound.code() })),
            r is Ok,
    {
        let msg = PlaySound { sound: sound.to_byte() };
        proof {
            msg.encoded_size();
        }
        self.tower.send(&msg)
    }

    /// Plays a tone of a frequency in Hz for a duration in 1/100ths of a second.
    pub fn play_tone(&mut self, frequency_hz: i16, duration_cs: i8) -> (r: Result<Vec<u8>, Error>)
        ensures
            issues(
                *old(self),
                *final(self),
                r,
                (PlayTone { frequency: frequency_hz, duration: duration_cs }),
            ),
            r is Ok,
    {
        let msg = PlayTone { frequency: frequency_hz, duration: duration_cs };
        proof {
            msg.encoded_size();
        }
        self.tower.send(&msg)
    }

    /// Turns the brick off.
    pub fn power_off(&mut self) -> (r: Result<Vec<u8>, Error>)
        ensures
            issues(*old(self), *final(self), r, (PowerOff {})),
            r is Ok,
    {
        let msg = PowerOff {};
        proof {
            msg.encoded_size();
        }
        self.tower.send(&msg)
    }

    /// Selects what the display shows.
    pub fn set_display(&mut self, source: SourceType, argument: u8) -> (r: Result<Vec<u8>, Error>)
        ensures
            issues(*old(self), *final(self), r, (SetDisplay { source: source.code(), argument })),
            r is Ok,
    {
        let msg = SetDisplay { source: source.to_byte(), argument };
        proof {
            msg.encoded_size();
        }
        self.tower.send(&msg)
    }

    /// Sets the power of motors, 0 to 7.
    /// A value out of range is refused, and nothing is sent.
    pub fn set_motor_power(
        &mut self,
        motor: MotorSelection,
        power: u8,
    ) -> (r: Result<Vec<u8>, Error>)
        ensures
            if power > 7 {
                refuses(*old(self), *final(self), r, "Motor power must be 0-7")
            } else {
                issues(
                    *old(self),
                    *final(self),
                    r,
                    (SetMotorPower {
                        motors: motor.bitfield,
                        source: SourceType::Immediate.code(),
                        argument: power,
                    }),
                ) && r is Ok
            },
    {
        if power > 7 {
            return Err(Error::InvalidData("Motor power must be 0-7"));
        }
        let msg = SetMotorPower {
            motors: motor.bitfield,
            source: SourceType::Immediate.to_byte(),
            argument: power,
        };
        proof {
            msg.encoded_size();
        }
        self.tower.send(&msg)
    }

    /// Sets the minutes of idling after which the brick turns itself off.
    pub fn set_power_down_delay(&mut self, minutes: u8) -> (r: Result<Vec<u8>, Error>)
        ensures
            issues(*old(self), *final(self), r, (SetPowerDownDelay { minutes })),
            r is Ok,
    {
        let msg = SetPowerDownDelay { minutes };
        proof {
            msg.encoded_size();
        }
        self.tower.send(&msg)
    }

    /// Selects the current program, 0 to 4.
    /// A value out of range is refused, and nothing is sent.
    pub fn set_program_number(&mut self, program: u8) -> (r: Result<Vec<u8>, Error>)
        ensures
            if program > 4 {
                refuses(*old(self), *final(self), r, "Program number must be 0-4")
            } else {
                issues(*old(self), *final(self), r, (SetProgramNumber { program })) && r is Ok
            },
    {
        if program > 4 {
            return Err(Error::InvalidData("Program number must be 0-4"));
        }
        let msg = SetProgramNumber { program };
        proof {
            msg.encoded_size();
        }
        self.tower.send(&msg)
    }

    /// Sets the mode of a sensor, 0 to 2.
    /// A value out of range is refused, and nothing is sent.
    pub fn set_sensor_mode(&mut self, sensor: u8, mode: SensorMode) -> (r: Result<Vec<u8>, Error>)
        ensures
            if sensor > 2 {
                refuses(*old(self), *final(self), r, "Sensor index must be 0-2")
            } else {
                issues(
                    *old(self),
                    *final(self),
                    r,
                    (SetSensorMode { sensor, code: mode.code() }),
                ) && r is Ok
            },
    {
        if sensor > 2 {
            return Err(Error::InvalidData("Sensor index must be 0-2"));
        }
        let msg = SetSensorMode { sensor, code: mode.to_byte() };
        proof {
            msg.encoded_size();
        }
        self.tower.send(&msg)
    }

    /// Sets the type of a sensor, 0 to 2.
    /// A value out of range is refused, and nothing is sent.
    pub fn set_sensor_type(&mut self, sensor: u8, ty: SensorType) -> (r: Result<Vec<u8>, Error>)
        ensures
            if sensor > 2 {
                refuses(*old(self), *final(self), r, "Sensor index must be 0-2")
            } else {
                issues(
                    *old(self),
                    *final(self),
                    r,
                    (SetSensorType { sensor, type_: ty.code() }),
                ) && r is Ok
            },
    {
        if sensor > 2 {
            return Err(Error::InvalidData("Sensor index must be 0-2"));
        }
        let msg = SetSensorType { sensor, type_: ty.to_byte() };
        proof {
            msg.encoded_size();
        }
        self.tower.send(&msg)
    }

    /// Sets the clock.
    /// A value out of range is refused, and nothing is sent.
    pub fn set_time(&mut self, hours: u8, minutes: u8) -> (r: Result<Vec<u8>, Error>)
        ensures
            if hours > 23 || minutes > 59 {
                refuses(*old(self), *final(self), r, "Hours must be 0-23 and minutes must be 0-59")
            } else {
                issues(*old(self), *final(self), r, (SetTime { hours, minutes })) && r is Ok
            },
    {
        if hours > 23 || minutes > 59 {
            return Err(Error::InvalidData("Hours must be 0-23 and minutes must be 0-59"));
        }
        let msg = SetTime { hours, minutes };
        proof {
            msg.encoded_size();
        }
        self.tower.send(&msg)
    }

    /// Sets the range of the infrared transmitter.
    pub fn set_transmitter_range(&mut self, range: TransmitterRange) -> (r: Result<Vec<u8>, Error>)
        ensures
            issues(*old(self), *final(self), r, (SetTransmitterRange { range: range.code() })),
            r is Ok,
    {
        let msg = SetTransmitterRange { range: range.to_byte() };
        proof {
            msg.encoded_size();
        }
        self.tower.send(&msg)
    }

    /// Announces the download of firmware.
    /// The reply decodes as a [`StartFirmwareDownloadResponse`].
    pub fn start_firmware_download(
        &mut self,
        address: i16,
        checksum: i16,
    ) -> (r: Result<Vec<u8>, Error>)
        ensures
            issues(
                *old(self),
                *final(self),
                r,
                (StartFirmwareDownload { address, checksum, unknown: 0 }),
            ),
            r is Ok,
    {
        let msg = StartFirmwareDownload { address, checksum, unknown: 0 };
        proof {
            msg.encoded_size();
        }
        self.tower.send(&msg)
    }

    /// Announces the download of a subroutine, 0 to 7.
    /// The reply decodes as a [`StartSubroutineDownloadResponse`].
    /// A value out of range is refused, and nothing is sent.
    pub fn start_subroutine_download(
        &mut self,
        subroutine: i16,
        length: i16,
    ) -> (r: Result<Vec<u8>, Error>)
        ensures
            if subroutine < 0 || subroutine > 7 {
                refuses(*old(self), *final(self), r, "Subroutine must be 0-7")
            } else {
                issues(
                    *old(self),
                    *final(self),
                    r,
                    (StartSubroutineDownload { unknown: 0, subroutine, length }),
                ) && r is Ok
            },
    {
        if subroutine < 0 || subroutine > 7 {
            return Err(Error::InvalidData("Subroutine must be 0-7"));
        }
        let msg = StartSubroutineDownload { unknown: 0, subroutine, length };
        proof {
            msg.encoded_size();
        }
        self.tower.send(&msg)
    }

    /// Starts a task, 0 to 9.
    /// A value out of range is refused, and nothing is sent.
    pub fn start_task(&mut self, task: u8) -> (r: Result<Vec<u8>, Error>)
        ensures
            if task > 9 {
                refuses(*old(self), *final(self), r, "Task must be 0-9")
            } else {
                issues(*old(self), *final(self), r, (StartTask { task })) && r is Ok
            },
    {
        if task > 9 {
            return Err(Error::InvalidData("Task must be 0-9"));
        }
        let msg = StartTask { task };
        proof {
            msg.encoded_size();
        }
        self.tower.send(&msg)
    }

    /// Announces the download of a task, 0 to 9.
    /// A value out of range is refused, and nothing is sent.
    pub fn start_task_download(&mut self, task: u8, length: i16) -> (r: Result<Vec<u8>, Error>)
        ensures
            if task > 9 {
                refuses(*old(self), *final(self), r, "Task must be 0-9")
            } else {
                issues(
                    *old(self),
                    *final(self),
                    r,
                    (StartTaskDownload { unknown: 0, task: task as i16, length }),
                ) && r is Ok
            },
    {
        if task > 9 {
            return Err(Error::InvalidData("Task must be 0-9"));
        }
        let msg = StartTaskDownload { unknown: 0, task: task as i16, length };
        proof {
            msg.encoded_size();
        }
        self.tower.send(&msg)
    }

    /// Stops all tasks.
    pub fn stop_all_tasks(&mut self) -> (r: Result<Vec<u8>, Error>)
        ensures
            issues(*old(self), *final(self), r, (StopAllTasks {})),
            r is Ok,
    {
        let msg = StopAllTasks {};
        proof {
            msg.encoded_size();
        }
        self.tower.send(&msg)
    }

    /// Stops a task, 0 to 9.
    /// A value out of range is refused, and nothing is sent.
    pub fn stop_task(&mut self, task: u8) -> (r: Result<Vec<u8>, Error>)
        ensures
            if task > 9 {
                refuses(*old(self), *final(self), r, "Task must be 0-9")
            } else {
                issues(*old(self), *final(self), r, (StopTask { task })) && r is Ok
            },
    {
        if task > 9 {
            return Err(Error::InvalidData("Task must be 0-9"));
        }
        let msg = StopTask { task };
        proof {
            msg.encoded_size();
        }
        self.tower.send(&msg)
    }
    /// Sets the message buffer of every brick in range. The bricks do not
    /// reply.
    pub fn set_message(&mut self, message: u8) -> (r: Result<Vec<u8>, Error>)
        ensures
            issues(*old(self), *final(self), r, (SetMessage { message })),
            r is Ok,
    {
        let msg = SetMessage { message };
        proof {
            msg.encoded_size();
        }
        self.tower.send(&msg)
    }

    /// Sets the direction of motors.
    pub fn set_motor_direction(&mut self, motor: MotorSelection, direction: MotorDirection) -> (r:
        Result<Vec<u8>, Error>)
        ensures
            issues(
                *old(self),
                *final(self),
                r,
                (SetMotorDirection { code: direction_code(motor, direction) }),
            ),
            r is Ok,
    {
        let mut bitfield = motor.bitfield;
        if direction == MotorDirection::Forward {
            bitfield |= 0x80;
        }
        let msg = SetMotorDirection { code: bitfield };
        proof {
            msg.encoded_size();
        }
        self.tower.send(&msg)
    }

    /// Turns motors on or off, or lets them float.
    pub fn set_motor_on_off(&mut self, motor: MotorSelection, state: MotorPowerState) -> (r: Result<
        Vec<u8>,
        Error,
    >)
        ensures
            issues(
                *old(self),
                *final(self),
                r,
                (SetMotorOnOff { code: power_state_code(motor, state) }),
            ),
            r is Ok,
    {
        let mut code = motor.bitfield;
        match state {
            MotorPowerState::On => {
                code |= 0x80;
            },
            MotorPowerState::Off => {
                code |= 0x40;
            },
            MotorPowerState::Float => {},
        }
        let msg = SetMotorOnOff { code };
        proof {
            msg.encoded_size();
        }
        self.tower.send(&msg)
    }

    /// Carries one block of a download. The reply decodes as a
    /// [`crate::opcodes::TransferDataResponse`]. A block of more data than
    /// a frame can carry yields no frame.
    pub fn transfer_data(&mut self, index: i16, length: i16, data: Vec<u8>, checksum: u8) -> (r:
        Result<Vec<u8>, Error>)
        ensures
            issues(*old(self), *final(self), r, (TransferData { index, length, data, checksum })),
    {
        let msg = TransferData { index, length, data, checksum };
        self.tower.send(&msg)
    }

    /// Unlocks the firmware after a download. What the brick answers is
    /// checked by [`Rcx::unlocked`].
    pub fn unlock_firmware(&mut self) -> (r: Result<Vec<u8>, Error>)
        ensures
            issues(*old(self), *final(self), r, (UnlockFirmware { key: unlock_key() })),
            r is Ok,
    {
        let msg = UnlockFirmware { key: [0x4c, 0x45, 0x47, 0x4f, 0xae] };
        assert(msg.key =~= unlock_key());
        proof {
            msg.encoded_size();
        }
        self.tower.send(&msg)
    }

    /// Checks what the brick answered to the request to unlock the
    /// firmware: the frame must decode, and carry the greeting of the
    /// firmware.
    pub fn unlocked(resp: &[u8]) -> (r: Result<(), Error>)
        ensures
            match r {
                Ok(_) => deserialised::<UnlockFirmwareResponse>(resp@) matches Ok(reply)
                    && reply.data@ == unlock_greeting(),
                Err(e) => match deserialised::<UnlockFirmwareResponse>(resp@) {
                    Ok(reply) => reply.data@ != unlock_greeting() && e == Error::RcxError(
                        "Unexpected response from brick",
                    ),
                    Err(failure) => e == failure,
                },
            },
    {
        let reply = UnlockFirmwareResponse::deserialise(resp)?;
        let expected: [u8; 25] = [
            0x4a, 0x75, 0x73, 0x74, 0x20, 0x61, 0x20, 0x62, 0x69, 0x74, 0x20, 0x6f, 0x66, 0x66,
            0x20, 0x74, 0x68, 0x65, 0x20, 0x62, 0x6c, 0x6f, 0x63, 0x6b, 0x21,
        ];
        assert(expected@ =~= unlock_greeting());
        let mut i: usize = 0;
        while i < 25
            invariant
                i <= 25,
                expected@ == unlock_greeting(),
                deserialised::<UnlockFirmwareResponse>(resp@) == Ok::<
                    UnlockFirmwareResponse,
                    Error,
                >(reply),
                forall|k: int| 0 <= k < i ==> reply.data@[k] == expected@[k],
            decreases 25 - i,
        {
            if reply.data[i] != expected[i] {
                return Err(Error::RcxError("Unexpected response from brick"));
            }
            i += 1;
        }
        assert(reply.data@ =~= unlock_greeting());
        Ok(())
    }
}

} // verus!
