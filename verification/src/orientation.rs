//! The orientation plate of the puppet and the custom servos: a servo that is
//! only moved when the requested angle differs from the last one by at least
//! two degrees.

use vstd::prelude::*;

verus! {

/// The smallest change of angle, in degrees, that moves a servo.
pub const MINIMUM_ANGLE_DIFFERENCE: u8 = 2;

/// Whether a servo at `current` degrees is moved to `angle`.
pub open spec fn turns(current: u8, angle: u8) -> bool {
    let diff: int = if angle >= current {
        angle - current
    } else {
        current - angle
    };
    diff >= MINIMUM_ANGLE_DIFFERENCE
}

/// Move servo `index` to `angle` degrees.
#[derive(Clone, Copy, PartialEq, Eq, Structural, Debug)]
pub struct ServoCommand {
    pub index: u16,
    pub angle: u8,
}

fn turns_exec(current: u8, angle: u8) -> (r: bool)
    ensures
        r == turns(current, angle),
{
    let diff = if angle >= current {
        angle - current
    } else {
        current - angle
    };
    diff >= MINIMUM_ANGLE_DIFFERENCE
}

/// What the orientation plate is made with: the servo that turns it.
pub struct OrientationProps {
    pub servo_index: u16,
}

/// The orientation plate: the angle it was last turned to.
pub struct Orientation {
    pub current_angle: u8,
    pub servo_index: u16,
}

impl Orientation {
    pub fn new(props: OrientationProps) -> (o: Orientation)
        ensures
            o.current_angle == 0,
            o.servo_index == props.servo_index,
    {
        Orientation { current_angle: 0, servo_index: props.servo_index }
    }

    /// Turn the plate to `angle` degrees, unless it is within two degrees of it.
    pub fn set_orientation_angle(&mut self, angle: u8) -> (cmd: Option<ServoCommand>)
        ensures
            final(self).servo_index == old(self).servo_index,
            turns(old(self).current_angle, angle) ==> cmd == Some(
                ServoCommand { index: old(self).servo_index, angle },
            ) && final(self).current_angle == angle,
            !turns(old(self).current_angle, angle) ==> cmd == None::<ServoCommand>
                && final(self).current_angle == old(self).current_angle,
    {
        if turns_exec(self.current_angle, angle) {
            self.current_angle = angle;
            Some(ServoCommand { index: self.servo_index, angle })
        } else {
            None
        }
    }
}

/// What the Raspberry Pi interface of the orientation plate is made with: its
/// servo, counted from 1.
pub struct OrientationRPIInterfaceProps {
    pub orientation_servo: u16,
}

/// An orientation plate with no hardware: turns are only printed.
pub struct OrientationDummyInterface {}

impl OrientationDummyInterface {
    pub fn new() -> (i: OrientationDummyInterface) {
        OrientationDummyInterface {}
    }
}

/// What a custom servo is made with.
pub struct CustomServoProps {
    pub servo_index: u16,
}

/// A servo of the puppet driven directly by angle.
pub struct CustomServo {
    pub current_angle: u8,
    pub servo_index: u16,
}

impl CustomServo {
    pub fn new(props: CustomServoProps) -> (s: CustomServo)
        ensures
            s.current_angle == 0,
            s.servo_index == props.servo_index,
    {
        CustomServo { current_angle: 0, servo_index: props.servo_index }
    }

    /// Move the servo to `angle` degrees, unless it is within two degrees of it.
    pub fn set_custom_servo_angle(&mut self, angle: u8) -> (cmd: Option<ServoCommand>)
        ensures
            final(self).servo_index == old(self).servo_index,
            turns(old(self).current_angle, angle) ==> cmd == Some(
                ServoCommand { index: old(self).servo_index, angle },
            ) && final(self).current_angle == angle,
            !turns(old(self).current_angle, angle) ==> cmd == None::<ServoCommand>
                && final(self).current_angle == old(self).current_angle,
    {
        if turns_exec(self.current_angle, angle) {
            self.current_angle = angle;
            Some(ServoCommand { index: self.servo_index, angle })
        } else {
            None
        }
    }
}

/// A servo stays within two degrees of the last angle asked for, and asking
/// for the same angle again never moves it.
pub proof fn lemma_servo_settles(current: u8, angle: u8)
    ensures
        ({
            let next = if turns(current, angle) {
                angle
            } else {
                current
            };
            &&& !turns(next, angle)
            &&& (next as int - angle as int) < MINIMUM_ANGLE_DIFFERENCE
            &&& (angle as int - next as int) < MINIMUM_ANGLE_DIFFERENCE
        }),
{
}

} // verus!
