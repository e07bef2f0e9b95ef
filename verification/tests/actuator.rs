use puppetbots::actuator::{
    Actuator, ActuatorMessage, ActuatorProps, HardwareCommand, State, TimerRequest, FULL_SPEED,
};

fn props() -> ActuatorProps {
    ActuatorProps {
        name: "left".to_string(),
        flow_change_time_ms: 200,
        flow_max_angle: 80,
        max_pressure: 500,
        pressure_device_index: 1,
        inlet_motor: 1,
        outlet_motor: 2,
        flow_control_servo: 3,
    }
}

fn off(index: u16) -> HardwareCommand {
    HardwareCommand::SetDcMotor { index, on: false }
}

fn on(index: u16) -> HardwareCommand {
    HardwareCommand::SetDcMotor { index, on: true }
}

#[test]
fn new_actuator_is_idle_and_empty() {
    let a = Actuator::new(props());
    assert_eq!(a.state, State::Idle);
    assert_eq!(a.pressure, 0);
    assert_eq!(a.flow_speed, 0);
    assert!(a.action_queue.is_empty());
}

#[test]
fn stop_closes_both_valves() {
    let mut a = Actuator::new(props());
    a.state = State::Expanding;
    assert_eq!(a.stop(), vec![off(1), off(2)]);
    assert_eq!(a.state, State::Idle);
}

#[test]
fn contraction_at_new_speed_first_changes_flow() {
    let mut a = Actuator::new(props());
    a.receive(ActuatorMessage::set_state(State::Contracting, 128, 1000));
    assert_eq!(a.action_queue.len(), 2);
    assert_eq!(a.action_queue[0].state, State::FlowChange);
    assert_eq!(a.action_queue[0].speed, 128);
    assert_eq!(a.action_queue[0].delay, 200);
    assert_eq!(a.action_queue[1].state, State::Contracting);
    assert_eq!(a.action_queue[1].speed, 128);

    let (cmds, timer) = a.perform_next();
    assert_eq!(cmds, vec![HardwareCommand::SetFlowValve { servo: 3, max_angle: 80, speed: 128 }]);
    assert_eq!(timer, Some(TimerRequest { delay_ms: 200, target_speed: 128 }));
    assert_eq!(a.state, State::FlowChange);

    // Busy: nothing else starts.
    let (cmds, timer) = a.perform_next();
    assert!(cmds.is_empty());
    assert_eq!(timer, None);

    assert_eq!(a.timer_elapsed(128), vec![off(1), off(2)]);
    assert_eq!(a.flow_speed, 128);
    assert_eq!(a.state, State::Idle);

    let (cmds, timer) = a.perform_next();
    assert_eq!(cmds, vec![on(1), off(2)]);
    assert_eq!(timer, Some(TimerRequest { delay_ms: 1000, target_speed: 128 }));
    assert_eq!(a.state, State::Contracting);
}

#[test]
fn small_speed_difference_needs_no_flow_change() {
    let mut a = Actuator::new(props());
    // 12/255 is less than a twentieth; 13/255 is more.
    a.receive(ActuatorMessage::set_state(State::Contracting, 12, 100));
    assert_eq!(a.action_queue.len(), 1);
    a.receive(ActuatorMessage::set_state(State::Contracting, 13, 100));
    assert_eq!(a.action_queue.len(), 3);
    // Expansions never change the flow.
    a.receive(ActuatorMessage::set_state(State::Expanding, 255, 100));
    assert_eq!(a.action_queue.len(), 4);
}

#[test]
fn move_without_delay_stops_at_once() {
    let mut a = Actuator::new(props());
    a.receive(ActuatorMessage::set_state(State::Expanding, 0, 0));
    let (cmds, timer) = a.perform_next();
    assert_eq!(cmds, vec![off(1), on(2), off(1), off(2)]);
    assert_eq!(timer, None);
    assert_eq!(a.state, State::Idle);
}

#[test]
fn stop_request_keeps_flow_speed() {
    let mut a = Actuator::new(props());
    a.flow_speed = 40;
    a.receive(ActuatorMessage::set_state(State::Idle, FULL_SPEED, 0));
    let (cmds, timer) = a.perform_next();
    assert_eq!(cmds, vec![off(1), off(2), off(1), off(2)]);
    assert_eq!(timer, None);
    assert_eq!(a.flow_speed, 40);
}

#[test]
fn over_pressure_stops_contraction() {
    let mut a = Actuator::new(props());
    a.state = State::Contracting;
    assert!(a.update(500).is_empty());
    assert_eq!(a.state, State::Contracting);
    assert_eq!(a.update(501), vec![off(1), off(2)]);
    assert_eq!(a.state, State::Idle);
    assert_eq!(a.pressure, 501);
}

#[test]
fn over_pressure_leaves_expansion_alone() {
    let mut a = Actuator::new(props());
    a.state = State::Expanding;
    assert!(a.update(900).is_empty());
    assert_eq!(a.state, State::Expanding);
}

#[test]
fn requests_run_in_arrival_order() {
    let mut a = Actuator::new(props());
    a.receive(ActuatorMessage::set_state(State::Expanding, 0, 10));
    a.receive(ActuatorMessage::set_state(State::Idle, 255, 0));
    let (cmds, _) = a.perform_next();
    assert_eq!(cmds, vec![off(1), on(2)]);
    a.timer_elapsed(0);
    let (cmds, _) = a.perform_next();
    assert_eq!(cmds, vec![off(1), off(2), off(1), off(2)]);
}

#[test]
fn pressure_report_bytes() {
    let mut a = Actuator::new(props());
    a.pressure = 300;
    assert_eq!(a.pressure_report(), vec![b'S', b'P', b'l', b'e', b'f', b't', 0, 44, 1]);
    a.pressure = -2;
    assert_eq!(a.pressure_report(), vec![b'S', b'P', b'l', b'e', b'f', b't', 0, 0xfe, 0xff]);
}

#[test]
fn flow_reset_closes_the_flow_valve() {
    let mut a = Actuator::new(props());
    a.flow_speed = 200;
    a.receive(ActuatorMessage::set_state(State::FlowReset, FULL_SPEED, 0));
    assert_eq!(a.action_queue.len(), 1);
    assert_eq!(a.action_queue[0].state, State::FlowChange);
    assert_eq!(a.action_queue[0].speed, 0);
    assert_eq!(a.action_queue[0].delay, 200);
    let (cmds, timer) = a.perform_next();
    assert_eq!(cmds, vec![HardwareCommand::SetFlowValve { servo: 3, max_angle: 80, speed: 0 }]);
    assert_eq!(timer, Some(TimerRequest { delay_ms: 200, target_speed: 0 }));
    a.timer_elapsed(0);
    assert_eq!(a.flow_speed, 0);
    assert_eq!(a.state, State::Idle);
}
