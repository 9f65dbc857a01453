//! The values that the commands of the brick take.

use vstd::prelude::*;
use crate::errors::Error;

verus! {

/// Where a value comes from. Sources are like addressing modes: they say
/// where and how to get the value of an operand.
///
/// There are 16 sources, of which 13 apply to the RCX.
#[derive(Copy, Clone, Debug, PartialEq, Eq, Structural)]
pub enum SourceType {
    /// The value of a variable.
    Variable,
    /// The value of a timer, in 1/100ths of a second.
    Timer,
    /// The argument itself.
    Immediate,
    /// The state of a motor.
    MotorState,
    /// A random value, 0..max.
    Random,
    /// The number of the current program.
    CurrentProgram,
    /// The value of a sensor.
    SensorValue,
    /// The type of a sensor.
    SensorType,
    /// The mode of a sensor.
    SensorMode,
    /// The raw value of a sensor, 0..1023.
    RawSensorValue,
    /// The boolean value of a sensor, 0..1.
    BooleanSensorValue,
    /// Minutes since power on.
    Clock,
    /// The value of the message buffer.
    Message,
}

impl SourceType {
    /// The byte that stands for the source. 5, 6 and 7 are reserved for
    /// the CyberMaster.
    pub open spec fn code(self) -> u8 {
        match self {
            Self::Variable => 0,
            Self::Timer => 1,
            Self::Immediate => 2,
            Self::MotorState => 3,
            Self::Random => 4,
            Self::CurrentProgram => 8,
            Self::SensorValue => 9,
            Self::SensorType => 10,
            Self::SensorMode => 11,
            Self::RawSensorValue => 12,
            Self::BooleanSensorValue => 13,
            Self::Clock => 14,
            Self::Message => 15,
        }
    }

    /// The byte that stands for the source.
    pub fn to_byte(self) -> (r: u8)
        ensures
            r == self.code(),
    {
        match self {
            Self::Variable => 0,
            Self::Timer => 1,
            Self::Immediate => 2,
            Self::MotorState => 3,
            Self::Random => 4,
            Self::CurrentProgram => 8,
            Self::SensorValue => 9,
            Self::SensorType => 10,
            Self::SensorMode => 11,
            Self::RawSensorValue => 12,
            Self::BooleanSensorValue => 13,
            Self::Clock => 14,
            Self::Message => 15,
        }
    }
}

/// Which way a motor turns.
#[derive(Copy, Clone, Debug, PartialEq, Eq, Structural)]
pub enum MotorDirection {
    Forward,
    Reverse,
}

/// Whether a motor is driven, braked or left to turn freely.
#[derive(Copy, Clone, Debug, PartialEq, Eq, Structural)]
pub enum MotorPowerState {
    /// The motor is driven.
    On,
    /// The motor is braked.
    Off,
    /// The motor turns freely.
    Float,
}

/// The state of a motor, which the brick encodes in one byte. Bits 0-2
/// hold the power, 0..7. The other bits are:
/// ```text
/// Bit   Meaning       Notes
/// 0x08  Forward flag  0 if forward, 1 if reverse.
/// 0x40  Off flag      1 if off.
/// 0x80  On flag       1 if on.
/// ```
/// If both bit 0x40 and bit 0x80 are 0, the motor floats.
#[derive(Copy, Clone, Debug, PartialEq, Eq)]
pub struct MotorState {
    /// The power, 0 to 7.
    pub power: u8,
    /// Which way the motor turns.
    pub direction: MotorDirection,
    /// Whether the motor is driven, braked or left to turn freely.
    pub state: MotorPowerState,
}

/// What is said of a byte that has both the on flag and the off flag.
pub open spec fn invalid_motor_state_message() -> &'static str {
    "Invalid motor power state"
}

impl MotorState {
    /// The motor state that a byte stands for, if it stands for one: a
    /// byte with both the on flag and the off flag stands for none.
    pub open spec fn of(value: u8) -> Option<MotorState> {
        let power = value & 0b0111;
        let direction = if value & 0x08 == 0 {
            MotorDirection::Forward
        } else {
            MotorDirection::Reverse
        };
        if value & 0x40 == 0 && value & 0x80 == 0 {
            Some(MotorState { power, direction, state: MotorPowerState::Float })
        } else if value & 0x80 == 0 {
            Some(MotorState { power, direction, state: MotorPowerState::Off })
        } else if value & 0x40 == 0 {
            Some(MotorState { power, direction, state: MotorPowerState::On })
        } else {
            None
        }
    }

    /// Decodes the state of a motor from the byte the brick reports.
    pub fn try_from(value: u8) -> (r: Result<Self, Error>)
        ensures
            match r {
                Ok(state) => Self::of(value) == Some(state),
                Err(e) => Self::of(value) is None && e == Error::InvalidData(
                    invalid_motor_state_message(),
                ),
            },
            r matches Ok(state) ==> state.power <= 7,
    {
        let power = value & 0b0111;
        assert(value & 0b0111 <= 7) by (bit_vector);
        let direction = if value & 0x08 == 0 {
            MotorDirection::Forward
        } else {
            MotorDirection::Reverse
        };
        let state = if value & 0x40 == 0 && value & 0x80 == 0 {
            MotorPowerState::Float
        } else if value & 0x80 == 0 {
            MotorPowerState::Off
        } else if value & 0x40 == 0 {
            MotorPowerState::On
        } else {
            return Err(Error::InvalidData("Invalid motor power state"));
        };
        Ok(Self { power, direction, state })
    }
}

/// The six built-in sounds.
#[derive(Copy, Clone, Debug, PartialEq, Eq, Structural)]
pub enum Sound {
    /// Sound 0.
    Blip,
    /// Sound 1.
    BeepBeep,
    /// Sound 2.
    DownwardTones,
    /// Sound 3.
    UpwardTones,
    /// Sound 4.
    LowBuzz,
    /// Sound 5.
    FastUpwardTones,
}

impl Sound {
    /// The index of the sound.
    pub open spec fn code(self) -> u8 {
        match self {
            Self::Blip => 0,
            Self::BeepBeep => 1,
            Self::DownwardTones => 2,
            Self::UpwardTones => 3,
            Self::LowBuzz => 4,
            Self::FastUpwardTones => 5,
        }
    }

    /// The index of the sound.
    pub fn to_byte(self) -> (r: u8)
        ensures
            r == self.code(),
    {
        match self {
            Self::Blip => 0,
            Self::BeepBeep => 1,
            Self::DownwardTones => 2,
            Self::UpwardTones => 3,
            Self::LowBuzz => 4,
            Self::FastUpwardTones => 5,
        }
    }
}

/// A set of motors, as a bit field: A is 0x01, B is 0x02, C is 0x04.
#[derive(Copy, Clone, Debug, PartialEq, Eq)]
pub struct MotorSelection {
    /// One bit for each motor of the set.
    pub bitfield: u8,
}

#[allow(non_snake_case)]
impl MotorSelection {
    /// Motor A.
    pub fn A() -> (r: Self)
        ensures
            r.bitfield == 0x01,
    {
        Self { bitfield: 0x01 }
    }

    /// Motor B.
    pub fn B() -> (r: Self)
        ensures
            r.bitfield == 0x02,
    {
        Self { bitfield: 0x02 }
    }

    /// Motor C.
    pub fn C() -> (r: Self)
        ensures
            r.bitfield == 0x04,
    {
        Self { bitfield: 0x04 }
    }
}

impl core::ops::BitOr for MotorSelection {
    type Output = Self;

    /// The motors of both selections.
    fn bitor(self, rhs: Self) -> (r: Self) {
        Self { bitfield: self.bitfield | rhs.bitfield }
    }
}

impl vstd::std_specs::ops::BitOrSpecImpl for MotorSelection {
    open spec fn obeys_bitor_spec() -> bool {
        true
    }

    open spec fn bitor_req(self, rhs: Self) -> bool {
        true
    }

    open spec fn bitor_spec(self, rhs: Self) -> Self {
        MotorSelection { bitfield: self.bitfield | rhs.bitfield }
    }
}

/// How the brick turns the raw value of a sensor into the value it
/// reports.
#[derive(Copy, Clone, Debug, PartialEq, Eq, Structural)]
pub enum SensorMode {
    /// Value in 0..1023.
    Raw,
    /// Either 0 or 1.
    Boolean,
    /// Number of boolean transitions.
    EdgeCount,
    /// Number of boolean transitions divided by two.
    PulseCount,
    /// Raw value scaled to 0..100.
    Percentage,
    /// 1/10ths of a degree Celsius, -19.8..69.5.
    TemperatureC,
    /// 1/10ths of a degree Fahrenheit, -3.6..157.1.
    TemperatureF,
    /// 1/16ths of a rotation, as a signed short.
    Angle,
}

impl SensorMode {
    /// The number of the mode.
    pub open spec fn code(self) -> u8 {
        match self {
            Self::Raw => 0,
            Self::Boolean => 1,
            Self::EdgeCount => 2,
            Self::PulseCount => 3,
            Self::Percentage => 4,
            Self::TemperatureC => 5,
            Self::TemperatureF => 6,
            Self::Angle => 7,
        }
    }

    /// The number of the mode.
    pub fn to_byte(self) -> (r: u8)
        ensures
            r == self.code(),
    {
        match self {
            Self::Raw => 0,
            Self::Boolean => 1,
            Self::EdgeCount => 2,
            Self::PulseCount => 3,
            Self::Percentage => 4,
            Self::TemperatureC => 5,
            Self::TemperatureF => 6,
            Self::Angle => 7,
        }
    }
}

/// What is plugged into a sensor input.
#[derive(Copy, Clone, Debug, PartialEq, Eq, Structural)]
pub enum SensorType {
    Raw,
    Touch,
    Temperature,
    Light,
    Rotation,
}

impl SensorType {
    /// The number of the type.
    pub open spec fn code(self) -> u8 {
        match self {
            Self::Raw => 0,
            Self::Touch => 1,
            Self::Temperature => 2,
            Self::Light => 3,
            Self::Rotation => 4,
        }
    }

    /// The number of the type.
    pub fn to_byte(self) -> (r: u8)
        ensures
            r == self.code(),
    {
        match self {
            Self::Raw => 0,
            Self::Touch => 1,
            Self::Temperature => 2,
            Self::Light => 3,
            Self::Rotation => 4,
        }
    }
}

/// How far the infrared transmitter reaches.
#[derive(Copy, Clone, Debug, PartialEq, Eq, Structural)]
pub enum TransmitterRange {
    Short,
    Long,
}

impl TransmitterRange {
    /// The number of the range.
    pub open spec fn code(self) -> u8 {
        match self {
            Self::Short => 0,
            Self::Long => 1,
        }
    }

    /// The number of the range.
    pub fn to_byte(self) -> (r: u8)
        ensures
            r == self.code(),
    {
        match self {
            Self::Short => 0,
            Self::Long => 1,
        }
    }
}

} // verus!
