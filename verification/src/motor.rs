//! The message that carries a speed command to a motor driver.
use vstd::prelude::*;
use crate::arbiter::{Command, Direction};

verus! {

/// The mode number that tells the motor driver to run at a given speed.
pub const SPEED_MODE: u8 = 3;

/// One message for a motor driver.
#[derive(Clone, Copy, Debug, PartialEq, Eq, Structural)]
pub struct MotorMessage {
    pub address: u8,
    pub semi_id: u8,
    pub mode: u8,
    pub phase: bool,
    pub power: u16,
    pub angle: i32,
}

/// The fields of a speed message. The address and the sub-device number keep their low
/// eight bits, the speed its low sixteen.
pub open spec fn speed_message_of(address: u32, semi_id: u32, phase: bool, speed: u32, angle: i32)
    -> MotorMessage {
    MotorMessage {
        address: (address % 0x100) as u8,
        semi_id: (semi_id % 0x100) as u8,
        mode: SPEED_MODE,
        phase,
        power: (speed % 0x1_0000) as u16,
        angle,
    }
}

/// The direction flag of a command: set for forward and for rest.
pub open spec fn command_phase(command: Command) -> bool {
    match command {
        Command::Drive { direction: Direction::Backward, .. } => false,
        _ => true,
    }
}

/// The speed of a command: its magnitude, capped at the largest 32-bit number; zero
/// for rest.
pub open spec fn command_speed(command: Command) -> u32 {
    match command {
        Command::Drive { magnitude, .. } => if magnitude > u32::MAX {
            u32::MAX
        } else {
            magnitude as u32
        },
        Command::Rest => 0,
    }
}

/// Builds a speed message.
pub fn speed_message(address: u32, semi_id: u32, phase: bool, speed: u32, angle: i32) -> (m:
    MotorMessage)
    ensures
        m == speed_message_of(address, semi_id, phase, speed, angle),
{
    MotorMessage {
        address: (address % 0x100) as u8,
        semi_id: (semi_id % 0x100) as u8,
        mode: SPEED_MODE,
        phase,
        power: (speed % 0x1_0000) as u16,
        angle,
    }
}

/// Builds the speed message that carries an arbiter's command to the motor at `address`.
pub fn command_message(address: u32, semi_id: u32, command: Command) -> (m: MotorMessage)
    ensures
        m == speed_message_of(
            address,
            semi_id,
            command_phase(command),
            command_speed(command),
            0,
        ),
{
    match command {
        Command::Drive { direction, magnitude } => {
            let speed: u32 = if magnitude > 0xffff_ffff {
                0xffff_ffff
            } else {
                magnitude as u32
            };
            let phase = match direction {
                Direction::Forward => true,
                Direction::Backward => false,
            };
            speed_message(address, semi_id, phase, speed, 0)
        },
        Command::Rest => speed_message(address, semi_id, true, 0, 0),
    }
}

} // verus!
