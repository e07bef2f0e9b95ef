//! Which board outputs the Raspberry Pi interfaces of the actuators and of
//! the orientation plate drive. Motor outputs are numbered from 1 (`M1` to
//! `M4` of the DC motor board); servo indexes in the configuration are
//! numbered from 1 too, and index `i` is channel `C(i-1)` of the servo board.

use vstd::prelude::*;

verus! {

/// An output of the DC motor board.
#[derive(Clone, Copy, PartialEq, Eq, Structural, Debug)]
pub enum MotorSlot {
    Motor1,
    Motor2,
    Motor3,
    Motor4,
}

/// A channel of the 16-channel servo board.
#[derive(Clone, Copy, PartialEq, Eq, Structural, Debug)]
pub enum ServoChannel {
    C0,
    C1,
    C2,
    C3,
    C4,
    C5,
    C6,
    C7,
    C8,
    C9,
    C10,
    C11,
    C12,
    C13,
    C14,
    C15,
}

/// The number printed on a motor output.
pub open spec fn motor_number(m: MotorSlot) -> int {
    match m {
        MotorSlot::Motor1 => 1,
        MotorSlot::Motor2 => 2,
        MotorSlot::Motor3 => 3,
        MotorSlot::Motor4 => 4,
    }
}

/// The number of a servo channel.
pub open spec fn channel_number(c: ServoChannel) -> int {
    match c {
        ServoChannel::C0 => 0,
        ServoChannel::C1 => 1,
        ServoChannel::C2 => 2,
        ServoChannel::C3 => 3,
        ServoChannel::C4 => 4,
        ServoChannel::C5 => 5,
        ServoChannel::C6 => 6,
        ServoChannel::C7 => 7,
        ServoChannel::C8 => 8,
        ServoChannel::C9 => 9,
        ServoChannel::C10 => 10,
        ServoChannel::C11 => 11,
        ServoChannel::C12 => 12,
        ServoChannel::C13 => 13,
        ServoChannel::C14 => 14,
        ServoChannel::C15 => 15,
    }
}

/// The motor output with number `index`, from 1 to 4.
pub fn int_to_motor_enum(index: u16) -> (m: Option<MotorSlot>)
    ensures
        m is Some <==> 1 <= index <= 4,
        m matches Some(slot) ==> motor_number(slot) == index,
{
    match index {
        1 => Some(MotorSlot::Motor1),
        2 => Some(MotorSlot::Motor2),
        3 => Some(MotorSlot::Motor3),
        4 => Some(MotorSlot::Motor4),
        _ => None,
    }
}

/// The servo channel of servo `index`, counted from 1, among the four
/// channels that the orientation plate's interface can drive.
pub fn int_to_channel(index: u16) -> (c: Option<ServoChannel>)
    ensures
        c is Some <==> 1 <= index <= 4,
        c matches Some(ch) ==> channel_number(ch) == index - 1,
{
    match index {
        1 => Some(ServoChannel::C0),
        2 => Some(ServoChannel::C1),
        3 => Some(ServoChannel::C2),
        4 => Some(ServoChannel::C3),
        _ => None,
    }
}

/// The position, among the DC motor controllers, of motor output `index`
/// (counted from 1, so `M1` is at 0).
pub fn motor_controller(index: u16) -> (i: Option<usize>)
    ensures
        i is Some <==> 1 <= index <= 4,
        i matches Some(k) ==> k == index - 1,
{
    if 1 <= index && index <= 4 {
        Some((index - 1) as usize)
    } else {
        None
    }
}

/// What the Raspberry Pi interface of one actuator is made with: the I2C
/// device of its pressure board, the motor outputs of its inlet and outlet
/// valves, and the servo of its flow valve.
pub struct RPIInterfaceProps {
    pub pressure_i2c_dev: String,
    pub inlet_motor: u16,
    pub outlet_motor: u16,
    pub flow_control_servo: u16,
}

} // verus!
