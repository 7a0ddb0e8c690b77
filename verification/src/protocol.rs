//! The register protocol of the peripheral controller: which registers it
//! has, how wheels and rotation senses are numbered, and what a motor
//! command looks like on the wire.

use vstd::prelude::*;

verus! {

/// Bus address of the peripheral controller.
pub const CONTROLLER_ADDRESS: u16 = 0x2B;

/// Most data bytes one block write can carry.
pub const MAX_BLOCK_LEN: usize = 32;

/// Data bytes in a motor-control block: wheel, rotation sense, speed.
pub const MOTOR_BLOCK_LEN: usize = 3;

/// The commands the controller understands. Only `MotorControl` is issued by
/// this library; the others are listed for their register numbers.
#[derive(Clone, Copy, Debug, PartialEq, Eq, Structural)]
pub enum RaspbotRegister {
    MotorControl,
    ServoControl,
    WQ2812All,
    WQ2812Alone,
    IRSwitch,
    BeepSwitch,
    UltrasonicSwitch,
    WQ2812BrightnessAll,
    WQ2812BrightnessAlone,
}

impl RaspbotRegister {
    /// The register's number, sent as the command byte of a block write.
    pub open spec fn wire_byte(self) -> u8 {
        match self {
            RaspbotRegister::MotorControl => 0x01,
            RaspbotRegister::ServoControl => 0x02,
            RaspbotRegister::WQ2812All => 0x03,
            RaspbotRegister::WQ2812Alone => 0x04,
            RaspbotRegister::IRSwitch => 0x05,
            RaspbotRegister::BeepSwitch => 0x06,
            RaspbotRegister::UltrasonicSwitch => 0x07,
            RaspbotRegister::WQ2812BrightnessAll => 0x08,
            RaspbotRegister::WQ2812BrightnessAlone => 0x09,
        }
    }

    pub fn to_wire_byte(self) -> (b: u8)
        ensures
            b == self.wire_byte(),
    {
        match self {
            RaspbotRegister::MotorControl => 0x01,
            RaspbotRegister::ServoControl => 0x02,
            RaspbotRegister::WQ2812All => 0x03,
            RaspbotRegister::WQ2812Alone => 0x04,
            RaspbotRegister::IRSwitch => 0x05,
            RaspbotRegister::BeepSwitch => 0x06,
            RaspbotRegister::UltrasonicSwitch => 0x07,
            RaspbotRegister::WQ2812BrightnessAll => 0x08,
            RaspbotRegister::WQ2812BrightnessAlone => 0x09,
        }
    }
}

/// A drive wheel, named by where it sits on the chassis.
#[derive(Clone, Copy, Debug, PartialEq, Eq, Structural)]
pub enum Motor {
    ForwardLeft,
    ForwardRight,
    BackwardLeft,
    BackwardRight,
}

impl Motor {
    /// The wheel's number on the wire, 0 to 3.
    pub open spec fn wire_byte(self) -> u8 {
        match self {
            Motor::ForwardLeft => 0,
            Motor::ForwardRight => 1,
            Motor::BackwardLeft => 2,
            Motor::BackwardRight => 3,
        }
    }

    pub fn to_wire_byte(self) -> (b: u8)
        ensures
            b == self.wire_byte(),
    {
        match self {
            Motor::ForwardLeft => 0,
            Motor::ForwardRight => 1,
            Motor::BackwardLeft => 2,
            Motor::BackwardRight => 3,
        }
    }
}

/// The sense in which a wheel turns.
#[derive(Clone, Copy, Debug, PartialEq, Eq, Structural)]
pub enum MotorDirection {
    Forward,
    Reverse,
}

impl MotorDirection {
    /// The sense on the wire: forward is 1, reverse is 0.
    pub open spec fn wire_byte(self) -> u8 {
        match self {
            MotorDirection::Forward => 1,
            MotorDirection::Reverse => 0,
        }
    }

    pub fn to_wire_byte(self) -> (b: u8)
        ensures
            b == self.wire_byte(),
    {
        match self {
            MotorDirection::Forward => 1,
            MotorDirection::Reverse => 0,
        }
    }
}

/// One write to the motor-control register: turn `motor` in `direction` at
/// `speed`.
#[derive(Clone, Copy, Debug, PartialEq, Eq, Structural)]
pub struct MotorCommand {
    pub motor: Motor,
    pub direction: MotorDirection,
    pub speed: u8,
}

impl MotorCommand {
    /// The data block of the write: wheel, sense, speed.
    pub open spec fn payload_bytes(self) -> Seq<u8> {
        seq![self.motor.wire_byte(), self.direction.wire_byte(), self.speed]
    }

    /// The whole transmission after the bus address: the register number,
    /// then the data block.
    pub open spec fn wire_bytes(self) -> Seq<u8> {
        seq![
            RaspbotRegister::MotorControl.wire_byte(),
            self.motor.wire_byte(),
            self.direction.wire_byte(),
            self.speed,
        ]
    }

    /// The register a motor command is written to.
    pub fn register(&self) -> (r: RaspbotRegister)
        ensures
            r == RaspbotRegister::MotorControl,
    {
        RaspbotRegister::MotorControl
    }

    /// The data block to hand to the block write.
    pub fn payload(&self) -> (block: [u8; 3])
        ensures
            block@ == self.payload_bytes(),
            1 <= block@.len() <= MAX_BLOCK_LEN,
    {
        let block: [u8; 3] = [
            self.motor.to_wire_byte(),
            self.direction.to_wire_byte(),
            self.speed,
        ];
        assert(block@ =~= self.payload_bytes());
        block
    }

    /// The transmission as it appears on the wire: four bytes, the register
    /// number `0x01` first.
    pub fn to_wire(&self) -> (bytes: [u8; 4])
        ensures
            bytes@ == self.wire_bytes(),
            bytes@ == seq![0x01u8] + self.payload_bytes(),
            bytes@.len() == 4,
            bytes@[0] == 0x01,
            bytes@[1] == self.motor.wire_byte() && bytes@[1] <= 3,
            bytes@[2] == self.direction.wire_byte() && bytes@[2] <= 1,
            bytes@[3] == self.speed,
    {
        let bytes: [u8; 4] = [
            self.register().to_wire_byte(),
            self.motor.to_wire_byte(),
            self.direction.to_wire_byte(),
            self.speed,
        ];
        assert(bytes@ =~= self.wire_bytes());
        assert(bytes@ =~= seq![0x01u8] + self.payload_bytes());
        bytes
    }
}

} // verus!
