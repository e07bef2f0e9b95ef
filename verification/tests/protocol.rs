use puppetbots::actuator::{Actuator, ActuatorMessage, ActuatorProps, State};
use puppetbots::puppet::{decode_puppet_message, is_decodable, ActuatorCommand, PuppetCommand};
use puppetbots::server::{
    SensingRoute, ServerAction, ServerState, ADMIN_ROLE, PUPPET_ROLE,
};

fn names() -> Vec<String> {
    vec!["left".to_string(), "right".to_string()]
}

#[test]
fn decode_contract_command() {
    let msg = [b'A', b'l', b'e', b'f', b't', 0, b'C', 200, 0x10, 0x27];
    assert!(is_decodable(&msg, &names()));
    match decode_puppet_message(&msg, &names()) {
        PuppetCommand::Actuator { name, command } => {
            assert_eq!(name, "left");
            assert_eq!(command, ActuatorCommand::Contract { speed: 200, delay: 10000 });
            assert_eq!(
                command.to_message(),
                Some(ActuatorMessage { set_state: State::Contracting, speed: 200, delay: 10000 })
            );
        }
        other => panic!("unexpected {:?}", other),
    }
}

#[test]
fn decode_other_actuator_commands() {
    let expand = [b'A', b'r', b'i', b'g', b'h', b't', 0, b'E', 7, 1, 0];
    match decode_puppet_message(&expand, &names()) {
        PuppetCommand::Actuator { command, .. } => {
            assert_eq!(command, ActuatorCommand::Expand { speed: 7, delay: 1 })
        }
        other => panic!("unexpected {:?}", other),
    }
    let stop = [b'A', b'l', b'e', b'f', b't', 0, b'S'];
    match decode_puppet_message(&stop, &names()) {
        PuppetCommand::Actuator { command, .. } => {
            assert_eq!(command, ActuatorCommand::Stop);
            assert_eq!(
                command.to_message(),
                Some(ActuatorMessage { set_state: State::Idle, speed: 255, delay: 0 })
            );
        }
        other => panic!("unexpected {:?}", other),
    }
    let reset = [b'A', b'l', b'e', b'f', b't', 0, b'R'];
    match decode_puppet_message(&reset, &names()) {
        PuppetCommand::Actuator { command, .. } => {
            assert_eq!(command, ActuatorCommand::FlowReset);
            assert_eq!(
                command.to_message(),
                Some(ActuatorMessage { set_state: State::FlowReset, speed: 255, delay: 0 })
            );
        }
        other => panic!("unexpected {:?}", other),
    }
    let unknown = [b'A', b'l', b'e', b'f', b't', 0, b'X'];
    match decode_puppet_message(&unknown, &names()) {
        PuppetCommand::Actuator { command, .. } => {
            assert_eq!(command, ActuatorCommand::Unknown(b'X'));
            assert_eq!(command.to_message(), None);
        }
        other => panic!("unexpected {:?}", other),
    }
}

#[test]
fn decode_unknown_actuator_needs_no_speed() {
    let msg = [b'A', b'n', b'o', b'n', b'e', 0, b'C'];
    assert!(is_decodable(&msg, &names()));
    match decode_puppet_message(&msg, &names()) {
        PuppetCommand::UnknownActuator { name } => assert_eq!(name, "none"),
        other => panic!("unexpected {:?}", other),
    }
    // A known actuator with a truncated contraction cannot be read.
    assert!(!is_decodable(&[b'A', b'l', b'e', b'f', b't', 0, b'C', 1, 2], &names()));
}

#[test]
fn undecodable_messages() {
    assert!(!is_decodable(&[], &names()));
    assert!(!is_decodable(&[b'A', b'l', b'e', b'f', b't'], &names()));
    assert!(!is_decodable(&[b'A', b'l', b'e', b'f', b't', 0], &names()));
    assert!(!is_decodable(&[b'A', 0xff, 0, b'S'], &names()));
    assert!(!is_decodable(&[b'O'], &names()));
}

#[test]
fn decode_orientation_config_and_unknown() {
    match decode_puppet_message(&[b'O', 90], &names()) {
        PuppetCommand::Orientation { angle } => assert_eq!(angle, 90),
        other => panic!("unexpected {:?}", other),
    }
    assert!(matches!(decode_puppet_message(&[b'C'], &names()), PuppetCommand::Config));
    assert!(matches!(decode_puppet_message(&[b'Z'], &names()), PuppetCommand::Unknown(b'Z')));
}

#[test]
fn registration_and_refusals() {
    let mut s = ServerState::new();
    assert!(s.is_readable(7, &[b'R', 1]));
    assert_eq!(s.handle_message(7, &[b'R', 1]).unwrap(), ServerAction::Registered);
    assert_eq!(s.tokens.get(&7), Some(&1));
    assert_eq!(s.puppeteers.get(&1), Some(&7));

    let taken = s.handle_message(8, &[b'R', 1]).unwrap_err();
    assert_eq!(taken.message, "There is already a controller connected. Please try again later!");
    assert_eq!(
        taken.reply(),
        "EThere is already a controller connected. Please try again later!"
    );
    assert_eq!(s.handle_message(8, &[b'R', 3]).unwrap_err().message, "Unknown role");
    assert_eq!(
        s.handle_message(8, &[b'A', b'x']).unwrap_err().message,
        "Disconnected. Please refresh and try again."
    );
}

#[test]
fn commands_of_registered_client() {
    let mut s = ServerState::new();
    s.handle_message(7, &[b'R', 0]).unwrap();
    assert_eq!(s.handle_message(7, b"Aleft").unwrap(), ServerAction::ForwardActuator);
    assert_eq!(s.handle_message(7, b"O\x10").unwrap(), ServerAction::ForwardOrientation);
    assert_eq!(s.handle_message(7, b"CGET").unwrap(), ServerAction::SendConfig);
    assert_eq!(s.handle_message(7, b"CSET{}").unwrap(), ServerAction::ApplyConfig);
    assert_eq!(s.handle_message(7, b"CPUT").unwrap_err().message, "Unknown CONFIG command");
    assert_eq!(s.handle_message(7, b"X").unwrap_err().message, "Unknown command");
    assert!(!s.is_readable(7, b"CG"));
    assert!(!s.is_readable(7, b"C\xffGE"));
    assert!(!s.is_readable(7, b""));
    assert!(!s.is_readable(9, b"R"));
}

#[test]
fn close_frees_role() {
    let mut s = ServerState::new();
    s.handle_message(7, &[b'R', PUPPET_ROLE]).unwrap();
    s.disconnect(7);
    assert!(s.tokens.is_empty());
    assert!(s.puppeteers.is_empty());
    assert_eq!(s.handle_message(8, &[b'R', PUPPET_ROLE]).unwrap(), ServerAction::Registered);
    s.disconnect(99);
    assert_eq!(s.puppeteers.get(&PUPPET_ROLE), Some(&8));
}

#[test]
fn sensing_routes() {
    let mut s = ServerState::new();
    assert_eq!(s.route_sensing(b"SP\x00\x01"), SensingRoute::NoRecipient);
    s.handle_message(3, &[b'R', PUPPET_ROLE]).unwrap();
    s.handle_message(4, &[b'R', ADMIN_ROLE]).unwrap();
    assert_eq!(s.route_sensing(b"SPleft\x00\x01\x00"), SensingRoute::ToConnection(3));
    assert_eq!(s.route_sensing(b"Dhello"), SensingRoute::ToConnection(4));
    assert_eq!(s.route_sensing(b"SX"), SensingRoute::UnknownSensing(b'X'));
    assert_eq!(s.route_sensing(b"Q"), SensingRoute::UnknownCommand(b'Q'));
}

#[test]
fn pressure_report_reaches_puppeteer() {
    let a = Actuator::new(ActuatorProps {
        name: "right".to_string(),
        flow_change_time_ms: 200,
        flow_max_angle: 80,
        max_pressure: 10,
        pressure_device_index: 2,
        inlet_motor: 3,
        outlet_motor: 4,
        flow_control_servo: 2,
    });
    let mut s = ServerState::new();
    s.handle_message(11, &[b'R', PUPPET_ROLE]).unwrap();
    assert_eq!(s.route_sensing(&a.pressure_report()), SensingRoute::ToConnection(11));
}
