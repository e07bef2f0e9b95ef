//! The configuration of the puppet server, as read from its JSON file.

use crate::actuator::ActuatorProps;
use vstd::prelude::*;

verus! {

broadcast use vstd::utf8::encode_utf8_decode_utf8;

/// How long the flow valve takes to turn, in milliseconds, when the
/// configuration does not say.
pub const DEFAULT_FLOW_CHANGE_TIME_MS: u16 = 200;

/// The servo angle, in degrees, that shuts the flow valve, when the
/// configuration does not say.
pub const DEFAULT_FLOW_MAX_ANGLE: u16 = 80;

/// Where the websocket server listens.
pub struct ServerConfig {
    pub port: u16,
}

/// One actuator: its name in commands, the pressure sensor it is connected
/// to, its maximum pressure, how long the flow valve takes to turn, the
/// servo angle that shuts the flow, and the motor and servo outputs of its
/// inlet valve, outlet valve and flow valve.
pub struct ActuatorConfig {
    pub name: String,
    pub pressure_device_index: u16,
    pub max_pressure: i16,
    pub flow_change_time_ms: u16,
    pub flow_max_angle: u16,
    pub inlet_motor: u16,
    pub outlet_motor: u16,
    pub flow_control_servo: u16,
}

/// The whole configuration.
pub struct Config {
    pub server: ServerConfig,
    pub version: String,
    pub interface_type: String,
    pub orientation_servo: u16,
    pub actuators: Vec<ActuatorConfig>,
}

/// The hardware behind the puppet.
#[derive(Clone, Copy, PartialEq, Eq, Structural, Debug)]
pub enum InterfaceKind {
    /// A Raspberry Pi with the servo, motor and pressure boards.
    Rpi,
    /// No hardware: commands are only printed.
    Dummy,
}

/// The hardware that an interface type names: `rpi` or `dummy`.
pub open spec fn interface_kind_of(name: Seq<char>) -> Option<InterfaceKind> {
    if name == "rpi"@ {
        Some(InterfaceKind::Rpi)
    } else if name == "dummy"@ {
        Some(InterfaceKind::Dummy)
    } else {
        None
    }
}

/// Whether two strings are equal, compared by their UTF-8 bytes.
fn str_equal(a: &str, b: &str) -> (r: bool)
    ensures
        r == (a@ == b@),
{
    let same = crate::text::bytes_equal(a.as_bytes(), b.as_bytes());
    proof {
        if same {
            assert(vstd::utf8::decode_utf8(vstd::utf8::encode_utf8(a@)) == a@);
            assert(vstd::utf8::decode_utf8(vstd::utf8::encode_utf8(b@)) == b@);
        }
    }
    same
}

/// The hardware that an interface type names, if it names one.
pub fn interface_kind(name: &str) -> (k: Option<InterfaceKind>)
    ensures
        k == interface_kind_of(name@),
{
    if str_equal(name, "rpi") {
        Some(InterfaceKind::Rpi)
    } else if str_equal(name, "dummy") {
        Some(InterfaceKind::Dummy)
    } else {
        None
    }
}

impl ActuatorConfig {
    /// What an actuator configured so is made with.
    pub fn props(&self) -> (p: ActuatorProps)
        ensures
            p.name@ == self.name@,
            p.pressure_device_index == self.pressure_device_index,
            p.max_pressure == self.max_pressure,
            p.flow_change_time_ms == self.flow_change_time_ms,
            p.flow_max_angle == self.flow_max_angle,
            p.inlet_motor == self.inlet_motor,
            p.outlet_motor == self.outlet_motor,
            p.flow_control_servo == self.flow_control_servo,
    {
        ActuatorProps {
            name: self.name.clone(),
            flow_change_time_ms: self.flow_change_time_ms,
            flow_max_angle: self.flow_max_angle,
            max_pressure: self.max_pressure,
            pressure_device_index: self.pressure_device_index,
            inlet_motor: self.inlet_motor,
            outlet_motor: self.outlet_motor,
            flow_control_servo: self.flow_control_servo,
        }
    }
}

} // verus!
