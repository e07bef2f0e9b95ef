//! The shared hardware interface of the puppet: all DC motor outputs, all 16
//! servo channels and the two differential inputs of the pressure board.

use crate::rpi::{channel_number, ServoChannel};
use vstd::prelude::*;

verus! {

/// What the shared Raspberry Pi interface is made with: the I2C device of the
/// pressure board.
pub struct RPIInterfaceProps {
    pub i2c_dev: String,
}

/// A differential input pair of the pressure board.
#[derive(Clone, Copy, PartialEq, Eq, Structural, Debug)]
pub enum AdcInput {
    /// Inputs A0 and A1: pressure sensor 1.
    DifferentialA0A1,
    /// Inputs A2 and A3: pressure sensor 2.
    DifferentialA2A3,
}

/// The servo channel of servo `index`, counted from 1: servo `i` is channel
/// `C(i-1)`, for the 16 channels of the servo board.
pub fn int_to_channel(index: u16) -> (c: Option<ServoChannel>)
    ensures
        c is Some <==> 1 <= index <= 16,
        c matches Some(ch) ==> channel_number(ch) == index - 1,
{
    match index {
        1 => Some(ServoChannel::C0),
        2 => Some(ServoChannel::C1),
        3 => Some(ServoChannel::C2),
        4 => Some(ServoChannel::C3),
        5 => Some(ServoChannel::C4),
        6 => Some(ServoChannel::C5),
        7 => Some(ServoChannel::C6),
        8 => Some(ServoChannel::C7),
        9 => Some(ServoChannel::C8),
        10 => Some(ServoChannel::C9),
        11 => Some(ServoChannel::C10),
        12 => Some(ServoChannel::C11),
        13 => Some(ServoChannel::C12),
        14 => Some(ServoChannel::C13),
        15 => Some(ServoChannel::C14),
        16 => Some(ServoChannel::C15),
        _ => None,
    }
}

/// The input pair of pressure sensor `index`: sensor 1 on A0/A1, sensor 2 on
/// A2/A3. There is no other sensor.
pub fn adc_input(index: u16) -> (input: AdcInput)
    requires
        index == 1 || index == 2,
    ensures
        index == 1 ==> input == AdcInput::DifferentialA0A1,
        index == 2 ==> input == AdcInput::DifferentialA2A3,
{
    if index == 1 {
        AdcInput::DifferentialA0A1
    } else {
        AdcInput::DifferentialA2A3
    }
}

} // verus!
