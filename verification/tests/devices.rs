use puppetbots::config::{
    interface_kind, ActuatorConfig, InterfaceKind, DEFAULT_FLOW_CHANGE_TIME_MS, DEFAULT_FLOW_MAX_ANGLE,
};
use puppetbots::hardware::{adc_input, AdcInput};
use puppetbots::orientation::{
    CustomServo, CustomServoProps, Orientation, OrientationProps, ServoCommand,
};
use puppetbots::rig;
use puppetbots::rpi::{int_to_channel, int_to_motor_enum, motor_controller, MotorSlot, ServoChannel};

#[test]
fn motor_and_channel_numbers() {
    assert_eq!(int_to_motor_enum(1), Some(MotorSlot::Motor1));
    assert_eq!(int_to_motor_enum(4), Some(MotorSlot::Motor4));
    assert_eq!(int_to_motor_enum(0), None);
    assert_eq!(int_to_motor_enum(5), None);
    assert_eq!(int_to_channel(1), Some(ServoChannel::C0));
    assert_eq!(int_to_channel(4), Some(ServoChannel::C3));
    assert_eq!(int_to_channel(0), None);
    assert_eq!(int_to_channel(5), None);
    assert_eq!(puppetbots::hardware::int_to_channel(1), Some(ServoChannel::C0));
    assert_eq!(puppetbots::hardware::int_to_channel(5), Some(ServoChannel::C4));
    assert_eq!(puppetbots::hardware::int_to_channel(16), Some(ServoChannel::C15));
    assert_eq!(puppetbots::hardware::int_to_channel(0), None);
    assert_eq!(puppetbots::hardware::int_to_channel(17), None);
    assert_eq!(motor_controller(1), Some(0));
    assert_eq!(motor_controller(4), Some(3));
    assert_eq!(motor_controller(0), None);
    assert_eq!(motor_controller(5), None);
    assert_eq!(adc_input(1), AdcInput::DifferentialA0A1);
    assert_eq!(adc_input(2), AdcInput::DifferentialA2A3);
}

#[test]
fn interface_types() {
    assert_eq!(interface_kind("rpi"), Some(InterfaceKind::Rpi));
    assert_eq!(interface_kind("dummy"), Some(InterfaceKind::Dummy));
    assert_eq!(interface_kind("RPI"), None);
    assert_eq!(interface_kind(""), None);
}

#[test]
fn actuator_config_props() {
    let c = ActuatorConfig {
        name: "left".to_string(),
        pressure_device_index: 1,
        max_pressure: 700,
        flow_change_time_ms: 200,
        flow_max_angle: 80,
        inlet_motor: 1,
        outlet_motor: 2,
        flow_control_servo: 1,
    };
    let p = c.props();
    assert_eq!(p.name, "left");
    assert_eq!(p.max_pressure, 700);
    assert_eq!(p.flow_control_servo, 1);
}

#[test]
fn orientation_ignores_small_turns() {
    let mut o = Orientation::new(OrientationProps { servo_index: 5 });
    assert_eq!(o.set_orientation_angle(1), None);
    assert_eq!(o.current_angle, 0);
    assert_eq!(o.set_orientation_angle(2), Some(ServoCommand { index: 5, angle: 2 }));
    assert_eq!(o.current_angle, 2);
    assert_eq!(o.set_orientation_angle(2), None);
    assert_eq!(o.set_orientation_angle(0), Some(ServoCommand { index: 5, angle: 0 }));
}

#[test]
fn custom_servo_ignores_small_turns() {
    let mut s = CustomServo::new(CustomServoProps { servo_index: 2 });
    assert_eq!(s.set_custom_servo_angle(180), Some(ServoCommand { index: 2, angle: 180 }));
    assert_eq!(s.set_custom_servo_angle(179), None);
    assert_eq!(s.current_angle, 180);
}

#[test]
fn rig_deflates_above_maximum() {
    let mut a = rig::Actuator::new();
    assert!(!a.update(100));
    assert_eq!(a.state, rig::State::Idle);
    assert!(a.update(101));
    assert_eq!(a.state, rig::State::Deflating);
    assert_eq!(a.pressure, 101);
    assert!(!a.deflate());
}

#[test]
fn documented_defaults() {
    assert_eq!(DEFAULT_FLOW_CHANGE_TIME_MS, 200);
    assert_eq!(DEFAULT_FLOW_MAX_ANGLE, 80);
}
