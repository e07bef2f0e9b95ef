//! The pneumatic actuator: a queue of requested moves, run one at a time.
//!
//! Flow speeds are fractions of the full opening of the flow valve. Every
//! speed that reaches an actuator is a byte `k` standing for `k / 255`
//! (requests carry a byte, and "full speed" is 255), so speeds are kept here
//! as that byte.

use std::collections::VecDeque;
use vstd::prelude::*;

verus! {

/// What the actuator is doing.
#[derive(Clone, Copy, PartialEq, Eq, Structural, Debug)]
pub enum State {
    Contracting,
    Expanding,
    FlowChange,
    Idle,
    /// Asked for only: bring the flow valve back to closed.
    FlowReset,
}

/// A setting of the actuator that can be changed while it runs.
#[derive(Clone, Copy, PartialEq, Eq, Structural, Debug)]
pub enum ConfigMessage {
    MaxPressure,
    FlowChangePerSec,
}

/// The speed byte that stands for a fully open flow valve.
pub const FULL_SPEED: u8 = 255;

/// A request sent to an actuator: enter `set_state` with the flow valve at
/// `speed / 255`, and stay there `delay` milliseconds.
#[derive(Clone, Copy, PartialEq, Eq, Structural, Debug)]
pub struct ActuatorMessage {
    pub set_state: State,
    pub speed: u8,
    pub delay: u16,
}

impl ActuatorMessage {
    pub fn set_state(state: State, speed: u8, delay: u16) -> (m: ActuatorMessage)
        ensures
            m == (ActuatorMessage { set_state: state, speed, delay }),
    {
        ActuatorMessage { set_state: state, speed, delay }
    }
}

/// One queued move of the actuator.
#[derive(Clone, Copy, PartialEq, Eq, Structural, Debug)]
pub struct ActuatorAction {
    pub state: State,
    pub speed: u8,
    pub delay: u16,
}

/// A command for the hardware that drives the actuator.
#[derive(Clone, Copy, PartialEq, Eq, Structural, Debug)]
pub enum HardwareCommand {
    /// Switch the solenoid valve on DC motor output `index` fully on or off.
    SetDcMotor { index: u16, on: bool },
    /// Turn the flow-control servo `servo` to `max_angle * speed / 255` degrees.
    SetFlowValve { servo: u16, max_angle: u16, speed: u8 },
}

/// Ask the caller to report back, after `delay_ms` milliseconds, that the
/// current move is over; the flow valve is then at `target_speed`.
#[derive(Clone, Copy, PartialEq, Eq, Structural, Debug)]
pub struct TimerRequest {
    pub delay_ms: u16,
    pub target_speed: u8,
}

/// The fixed settings of an actuator.
#[derive(Clone, Copy, PartialEq, Eq, Structural, Debug)]
pub struct ActuatorSettings {
    pub flow_change_time_ms: u16,
    pub flow_max_angle: u16,
    pub max_pressure: i16,
    pub pressure_device_index: u16,
    pub inlet_motor: u16,
    pub outlet_motor: u16,
    pub flow_control_servo: u16,
}

/// What an actuator is made with.
pub struct ActuatorProps {
    pub name: String,
    pub flow_change_time_ms: u16,
    pub flow_max_angle: u16,
    pub max_pressure: i16,
    pub pressure_device_index: u16,
    pub inlet_motor: u16,
    pub outlet_motor: u16,
    pub flow_control_servo: u16,
}

/// One actuator of the puppet.
pub struct Actuator {
    pub name: String,
    pub pressure: i16,
    pub state: State,
    pub flow_speed: u8,
    pub flow_change_time_ms: u16,
    pub flow_max_angle: u16,
    pub max_pressure: i16,
    pub pressure_device_index: u16,
    pub inlet_motor: u16,
    pub outlet_motor: u16,
    pub flow_control_servo: u16,
    pub action_queue: VecDeque<ActuatorAction>,
}

/// The mathematical state of an actuator.
pub struct ActuatorView {
    pub name: Seq<char>,
    pub pressure: i16,
    pub state: State,
    pub flow_speed: u8,
    pub settings: ActuatorSettings,
    pub queue: Seq<ActuatorAction>,
}

/// The two bytes of `value` in little-endian order (two's complement).
pub open spec fn i16_le_bytes(value: i16) -> Seq<u8> {
    let bits = value as u16;
    seq![(bits % 256) as u8, (bits / 256) as u8]
}

/// The pressure report of an actuator: the letters `S` and `P`, the UTF-8 bytes
/// of its name, a zero byte, and its pressure in little-endian order.
pub open spec fn pressure_report_bytes(name: Seq<char>, pressure: i16) -> Seq<u8> {
    seq![83u8, 80u8] + vstd::utf8::encode_utf8(name) + seq![0u8] + i16_le_bytes(pressure)
}

/// Whether going from flow speed `current` to `requested` (both in 255ths)
/// changes the opening by at least a twentieth: such a change needs time for
/// the servo valve to turn.
pub open spec fn needs_flow_change(current: u8, requested: u8) -> bool {
    let diff: int = if current >= requested {
        current - requested
    } else {
        requested - current
    };
    20 * diff >= 255
}

impl ActuatorView {
    /// Both solenoid valves closed.
    pub open spec fn stop_commands(self) -> Seq<HardwareCommand> {
        seq![
            HardwareCommand::SetDcMotor { index: self.settings.inlet_motor, on: false },
            HardwareCommand::SetDcMotor { index: self.settings.outlet_motor, on: false },
        ]
    }

    /// The commands that begin `action`.
    pub open spec fn start_commands(self, action: ActuatorAction) -> Seq<HardwareCommand> {
        match action.state {
            State::FlowChange => seq![
                HardwareCommand::SetFlowValve {
                    servo: self.settings.flow_control_servo,
                    max_angle: self.settings.flow_max_angle,
                    speed: action.speed,
                },
            ],
            State::Contracting => seq![
                HardwareCommand::SetDcMotor { index: self.settings.inlet_motor, on: true },
                HardwareCommand::SetDcMotor { index: self.settings.outlet_motor, on: false },
            ],
            State::Expanding => seq![
                HardwareCommand::SetDcMotor { index: self.settings.inlet_motor, on: false },
                HardwareCommand::SetDcMotor { index: self.settings.outlet_motor, on: true },
            ],
            State::Idle => self.stop_commands(),
            State::FlowReset => self.stop_commands(),
        }
    }

    /// The moves that a request adds to the queue: a flow reset becomes a flow
    /// change to speed 0 that lasts `flow_change_time_ms`; a contraction whose
    /// speed differs enough from the current flow speed is preceded by a flow
    /// change to that speed, which lasts `flow_change_time_ms`.
    pub open spec fn requested_actions(self, msg: ActuatorMessage) -> Seq<ActuatorAction> {
        let main = ActuatorAction { state: msg.set_state, speed: msg.speed, delay: msg.delay };
        if msg.set_state == State::FlowReset {
            seq![
                ActuatorAction {
                    state: State::FlowChange,
                    speed: 0,
                    delay: self.settings.flow_change_time_ms,
                },
            ]
        } else if msg.set_state == State::Contracting && needs_flow_change(self.flow_speed, msg.speed) {
            seq![
                ActuatorAction {
                    state: State::FlowChange,
                    speed: msg.speed,
                    delay: self.settings.flow_change_time_ms,
                },
                main,
            ]
        } else {
            seq![main]
        }
    }

    pub open spec fn received(self, msg: ActuatorMessage) -> ActuatorView {
        ActuatorView { queue: self.queue + self.requested_actions(msg), ..self }
    }

    /// Whether the next queued move starts now: only an idle actuator starts one.
    pub open spec fn can_start(self) -> bool {
        self.state == State::Idle && self.queue.len() > 0
    }

    /// The state after the next move has started: a move that lasts no time,
    /// and a flow reset that reached the queue directly, end idle.
    pub open spec fn started(self) -> ActuatorView {
        if self.can_start() {
            let a = self.queue[0];
            ActuatorView {
                state: if a.delay == 0 || a.state == State::FlowReset {
                    State::Idle
                } else {
                    a.state
                },
                queue: self.queue.drop_first(),
                ..self
            }
        } else {
            self
        }
    }

    /// The hardware commands given when the next move starts: its own, and if it
    /// lasts no time, the closing of both valves right after.
    pub open spec fn started_commands(self) -> Seq<HardwareCommand> {
        if self.can_start() {
            let a = self.queue[0];
            self.start_commands(a) + if a.delay == 0 {
                self.stop_commands()
            } else {
                Seq::<HardwareCommand>::empty()
            }
        } else {
            Seq::<HardwareCommand>::empty()
        }
    }

    /// The timer that the next move asks for: one that lasts its delay; a flow
    /// change ends at its own speed, any other move at the current flow speed.
    pub open spec fn started_timer(self) -> Option<TimerRequest> {
        if self.can_start() && self.queue[0].delay != 0 {
            let a = self.queue[0];
            Some(
                TimerRequest {
                    delay_ms: a.delay,
                    target_speed: if a.state == State::FlowChange {
                        a.speed
                    } else {
                        self.flow_speed
                    },
                },
            )
        } else {
            None
        }
    }

    /// The state when a move's timer has run out: valves closed, flow valve at
    /// `target_speed`, idle.
    pub open spec fn timer_done(self, target_speed: u8) -> ActuatorView {
        ActuatorView { state: State::Idle, flow_speed: target_speed, ..self }
    }

    /// Whether a pressure reading stops the actuator: it does so while
    /// contracting, above the maximum pressure.
    pub open spec fn over_pressure(self, reading: i16) -> bool {
        reading > self.settings.max_pressure && self.state == State::Contracting
    }

    pub open spec fn updated(self, reading: i16) -> ActuatorView {
        ActuatorView {
            pressure: reading,
            state: if self.over_pressure(reading) {
                State::Idle
            } else {
                self.state
            },
            ..self
        }
    }

    pub open spec fn update_commands(self, reading: i16) -> Seq<HardwareCommand> {
        if self.over_pressure(reading) {
            self.stop_commands()
        } else {
            Seq::<HardwareCommand>::empty()
        }
    }
}

impl View for Actuator {
    type V = ActuatorView;

    open spec fn view(&self) -> ActuatorView {
        ActuatorView {
            name: self.name@,
            pressure: self.pressure,
            state: self.state,
            flow_speed: self.flow_speed,
            settings: ActuatorSettings {
                flow_change_time_ms: self.flow_change_time_ms,
                flow_max_angle: self.flow_max_angle,
                max_pressure: self.max_pressure,
                pressure_device_index: self.pressure_device_index,
                inlet_motor: self.inlet_motor,
                outlet_motor: self.outlet_motor,
                flow_control_servo: self.flow_control_servo,
            },
            queue: self.action_queue@,
        }
    }
}


impl Actuator {
    /// A new actuator: idle, at pressure 0, flow valve closed, nothing queued.
    pub fn new(props: ActuatorProps) -> (a: Actuator)
        ensures
            a@.name == props.name@,
            a@.pressure == 0,
            a@.state == State::Idle,
            a@.flow_speed == 0,
            a@.queue == Seq::<ActuatorAction>::empty(),
            a@.settings == (ActuatorSettings {
                flow_change_time_ms: props.flow_change_time_ms,
                flow_max_angle: props.flow_max_angle,
                max_pressure: props.max_pressure,
                pressure_device_index: props.pressure_device_index,
                inlet_motor: props.inlet_motor,
                outlet_motor: props.outlet_motor,
                flow_control_servo: props.flow_control_servo,
            }),
    {
        Actuator {
            name: props.name,
            pressure: 0,
            state: State::Idle,
            flow_speed: 0,
            flow_change_time_ms: props.flow_change_time_ms,
            flow_max_angle: props.flow_max_angle,
            max_pressure: props.max_pressure,
            pressure_device_index: props.pressure_device_index,
            inlet_motor: props.inlet_motor,
            outlet_motor: props.outlet_motor,
            flow_control_servo: props.flow_control_servo,
            action_queue: VecDeque::new(),
        }
    }

    /// Close both valves and go idle.
    pub fn stop(&mut self) -> (commands: Vec<HardwareCommand>)
        ensures
            commands@ == old(self)@.stop_commands(),
            final(self)@ == (ActuatorView { state: State::Idle, ..old(self)@ }),
    {
        let mut commands = Vec::new();
        commands.push(HardwareCommand::SetDcMotor { index: self.inlet_motor, on: false });
        commands.push(HardwareCommand::SetDcMotor { index: self.outlet_motor, on: false });
        self.state = State::Idle;
        commands
    }

    /// Queue a request.
    pub fn receive(&mut self, msg: ActuatorMessage)
        ensures
            final(self)@ == old(self)@.received(msg),
            (msg.set_state == State::Contracting && 20 * (if msg.speed >= old(self).flow_speed {
                msg.speed - old(self).flow_speed
            } else {
                old(self).flow_speed - msg.speed
            }) >= 255) ==> final(self)@.queue == old(self)@.queue.push(
                ActuatorAction {
                    state: State::FlowChange,
                    speed: msg.speed,
                    delay: old(self).flow_change_time_ms,
                },
            ).push(ActuatorAction { state: State::Contracting, speed: msg.speed, delay: msg.delay }),
    {
        proof {
            lemma_request_queues(self@, msg);
        }
        let contracting = match msg.set_state {
            State::Contracting => true,
            _ => false,
        };
        let diff: u8 = if self.flow_speed >= msg.speed {
            self.flow_speed - msg.speed
        } else {
            msg.speed - self.flow_speed
        };
        let ghost before = self@;
        let resetting = match msg.set_state {
            State::FlowReset => true,
            _ => false,
        };
        if resetting {
            self.action_queue.push_back(
                ActuatorAction { state: State::FlowChange, speed: 0, delay: self.flow_change_time_ms },
            );
            assert(self.action_queue@ =~= before.queue + before.requested_actions(msg));
            return;
        }
        if contracting && 20 * (diff as u32) >= 255 {
            self.action_queue.push_back(
                ActuatorAction {
                    state: State::FlowChange,
                    speed: msg.speed,
                    delay: self.flow_change_time_ms,
                },
            );
        }
        self.action_queue.push_back(
            ActuatorAction { state: msg.set_state, speed: msg.speed, delay: msg.delay },
        );
        assert(self.action_queue@ =~= before.queue + before.requested_actions(msg));
    }

    /// Start the next queued move, if the actuator is idle.
    pub fn perform_next(&mut self) -> (res: (Vec<HardwareCommand>, Option<TimerRequest>))
        ensures
            final(self)@ == old(self)@.started(),
            res.0@ == old(self)@.started_commands(),
            res.1 == old(self)@.started_timer(),
            (old(self).state == State::Idle && old(self)@.queue.len() > 0 && old(self)@.queue[0].delay
                > 0 && old(self)@.queue[0].state != State::FlowChange) ==> res.1 == Some(
                TimerRequest {
                    delay_ms: old(self)@.queue[0].delay,
                    target_speed: old(self).flow_speed,
                },
            ),
            (old(self).state == State::Idle && old(self)@.queue.len() > 0 && old(self)@.queue[0].delay
                > 0 && old(self)@.queue[0].state == State::FlowChange) ==> res.1 == Some(
                TimerRequest {
                    delay_ms: old(self)@.queue[0].delay,
                    target_speed: old(self)@.queue[0].speed,
                },
            ),
    {
        proof {
            if self.state == State::Idle && self@.queue.len() > 0 {
                lemma_start_of_move(self@);
            }
        }
        let idle = match self.state {
            State::Idle => true,
            _ => false,
        };
        if !idle {
            return (Vec::new(), None);
        }
        let ghost before = self@;
        match self.action_queue.pop_front() {
            None => (Vec::new(), None),
            Some(action) => {
                assert(self.action_queue@ =~= before.queue.drop_first());
                self.state = action.state;
                let mut target_flow_speed = self.flow_speed;
                let mut commands: Vec<HardwareCommand> = Vec::new();
                match action.state {
                    State::FlowChange => {
                        target_flow_speed = action.speed;
                        commands.push(
                            HardwareCommand::SetFlowValve {
                                servo: self.flow_control_servo,
                                max_angle: self.flow_max_angle,
                                speed: action.speed,
                            },
                        );
                    },
                    State::Contracting => {
                        commands.push(HardwareCommand::SetDcMotor { index: self.inlet_motor, on: true });
                        commands.push(HardwareCommand::SetDcMotor { index: self.outlet_motor, on: false });
                    },
                    State::Expanding => {
                        commands.push(HardwareCommand::SetDcMotor { index: self.inlet_motor, on: false });
                        commands.push(HardwareCommand::SetDcMotor { index: self.outlet_motor, on: true });
                    },
                    State::Idle => {
                        let mut stopping = self.stop();
                        commands.append(&mut stopping);
                    },
                    State::FlowReset => {
                        let mut stopping = self.stop();
                        commands.append(&mut stopping);
                    },
                }
                assert(commands@ =~= before.start_commands(action));
                if action.delay > 0 {
                    (commands, Some(TimerRequest { delay_ms: action.delay, target_speed: target_flow_speed }))
                } else {
                    let mut stopping = self.stop();
                    commands.append(&mut stopping);
                    (commands, None)
                }
            },
        }
    }

    /// One round of the actuator's loop: take the request that arrived, if
    /// any, then start the next queued move if the actuator is idle.
    pub fn step(&mut self, msg: Option<ActuatorMessage>) -> (res: (
        Vec<HardwareCommand>,
        Option<TimerRequest>,
    ))
        ensures
            ({
                let queued = match msg {
                    Some(m) => old(self)@.received(m),
                    None => old(self)@,
                };
                &&& final(self)@ == queued.started()
                &&& res.0@ == queued.started_commands()
                &&& res.1 == queued.started_timer()
            }),
    {
        match msg {
            Some(m) => self.receive(m),
            None => {},
        }
        self.perform_next()
    }

    /// A move's timer has run out: close both valves, set the flow speed that
    /// the move left, and go idle.
    pub fn timer_elapsed(&mut self, target_speed: u8) -> (commands: Vec<HardwareCommand>)
        ensures
            commands@ == old(self)@.stop_commands(),
            final(self)@ == old(self)@.timer_done(target_speed),
    {
        let commands = self.stop();
        self.flow_speed = target_speed;
        commands
    }

    /// The report of this actuator's pressure, sent to the server every second.
    pub fn pressure_report(&self) -> (report: Vec<u8>)
        ensures
            report@ == pressure_report_bytes(self@.name, self@.pressure),
    {
        let mut report: Vec<u8> = Vec::new();
        report.push(83u8);
        report.push(80u8);
        let name_bytes = self.name.as_str().as_bytes();
        let n = name_bytes.len();
        for i in 0..n
            invariant
                n == name_bytes@.len(),
                report@ =~= seq![83u8, 80u8] + name_bytes@.subrange(0, i as int),
        {
            report.push(name_bytes[i]);
        }
        assert(name_bytes@.subrange(0, n as int) =~= name_bytes@);
        report.push(0u8);
        let bits = self.pressure as u16;
        report.push((bits % 256) as u8);
        report.push((bits / 256) as u8);
        assert(report@ =~= pressure_report_bytes(self@.name, self@.pressure));
        report
    }

    /// Take a pressure reading; above the maximum pressure a contraction stops.
    pub fn update(&mut self, reading: i16) -> (commands: Vec<HardwareCommand>)
        ensures
            final(self)@ == old(self)@.updated(reading),
            commands@ == old(self)@.update_commands(reading),
    {
        self.pressure = reading;
        let contracting = match self.state {
            State::Contracting => true,
            _ => false,
        };
        if self.pressure > self.max_pressure && contracting {
            self.stop()
        } else {
            Vec::new()
        }
    }
}


/// Above its maximum pressure an actuator does not inflate: a reading over the
/// maximum leaves it anything but contracting, and if it was contracting, both
/// valves are closed.
pub proof fn lemma_pressure_limit(v: ActuatorView, reading: i16)
    requires
        reading > v.settings.max_pressure,
    ensures
        v.updated(reading).state != State::Contracting,
        v.updated(reading).pressure == reading,
        v.state == State::Contracting ==> v.update_commands(reading) == v.stop_commands(),
        v.state != State::Contracting ==> v.updated(reading).state == v.state,
{
}

/// An actuator in the middle of a move starts nothing else: the next queued
/// move waits until it is idle.
pub proof fn lemma_busy_actuator_waits(v: ActuatorView)
    requires
        v.state != State::Idle,
    ensures
        v.started() == v,
        v.started_commands() == Seq::<HardwareCommand>::empty(),
        v.started_timer() == None::<TimerRequest>,
{
}

/// Requests run in the order they arrive: while a move is queued or running,
/// receiving a request and starting the next move give the same state in
/// either order, so a new request never overtakes one that came before it.
pub proof fn lemma_requests_keep_their_order(v: ActuatorView, msg: ActuatorMessage)
    requires
        v.queue.len() > 0 || v.state != State::Idle,
    ensures
        v.received(msg).started() == v.started().received(msg),
        v.received(msg).started_commands() == v.started_commands(),
        v.received(msg).started_timer() == v.started_timer(),
{
    if v.can_start() {
        assert(v.received(msg).queue[0] == v.queue[0]);
        assert((v.queue + v.requested_actions(msg)).drop_first() =~= v.queue.drop_first()
            + v.requested_actions(msg));
    }
}

/// A contraction at a flow speed that differs enough from the current one first
/// turns the flow valve to the new speed and waits `flow_change_time_ms`; when
/// that wait is over the flow speed is the requested one, and the contraction
/// starts by opening the inlet and closing the outlet.
pub proof fn lemma_flow_change_precedes_contraction(v: ActuatorView, msg: ActuatorMessage)
    requires
        v.state == State::Idle,
        v.queue.len() == 0,
        msg.set_state == State::Contracting,
        needs_flow_change(v.flow_speed, msg.speed),
        v.settings.flow_change_time_ms > 0,
    ensures
        ({
            let v1 = v.received(msg);
            let v2 = v1.started().timer_done(msg.speed);
            &&& v1.started_commands() == seq![
                HardwareCommand::SetFlowValve {
                    servo: v.settings.flow_control_servo,
                    max_angle: v.settings.flow_max_angle,
                    speed: msg.speed,
                },
            ]
            &&& v1.started().state == State::FlowChange
            &&& v1.started_timer() == Some(
                TimerRequest { delay_ms: v.settings.flow_change_time_ms, target_speed: msg.speed },
            )
            &&& v2.flow_speed == msg.speed
            &&& v2.state == State::Idle
            &&& v2.started_commands().subrange(0, 2) == seq![
                HardwareCommand::SetDcMotor { index: v.settings.inlet_motor, on: true },
                HardwareCommand::SetDcMotor { index: v.settings.outlet_motor, on: false },
            ]
            &&& v2.started().state == if msg.delay > 0 {
                State::Contracting
            } else {
                State::Idle
            }
            &&& v2.started().queue.len() == 0
        }),
{
    let v1 = v.received(msg);
    assert(v1.queue =~= v.requested_actions(msg));
    let v2 = v1.started().timer_done(msg.speed);
    assert(v2.queue =~= seq![
        ActuatorAction { state: msg.set_state, speed: msg.speed, delay: msg.delay },
    ]);
    assert(v2.started_commands().subrange(0, 2) =~= seq![
        HardwareCommand::SetDcMotor { index: v.settings.inlet_motor, on: true },
        HardwareCommand::SetDcMotor { index: v.settings.outlet_motor, on: false },
    ]);
}


/// Every queued flow change is directly followed by the contraction that
/// asked for it, at the same speed.
pub open spec fn flow_changes_paired(queue: Seq<ActuatorAction>) -> bool {
    forall|i: int|
        0 <= i < queue.len() && #[trigger] queue[i].state == State::FlowChange ==> i + 1 < queue.len()
            && queue[i + 1].state == State::Contracting && queue[i + 1].speed == queue[i].speed
}

proof fn lemma_received_keeps_pairs(v: ActuatorView, msg: ActuatorMessage)
    requires
        flow_changes_paired(v.queue),
        msg.set_state != State::FlowChange,
        msg.set_state != State::FlowReset,
    ensures
        flow_changes_paired(v.received(msg).queue),
{
    let q = v.received(msg).queue;
    let added = v.requested_actions(msg);
    let n = v.queue.len();
    assert(q =~= v.queue + added);
    assert forall|i: int|
        0 <= i < q.len() && #[trigger] q[i].state == State::FlowChange implies i + 1 < q.len()
            && q[i + 1].state == State::Contracting && q[i + 1].speed == q[i].speed by {
        if i < n {
            assert(q[i] == v.queue[i]);
            assert(v.queue[i].state == State::FlowChange);
            assert(q[i + 1] == v.queue[i + 1]);
        } else {
            assert(q[i] == added[i - n]);
            assert(i == n);
            assert(q[i + 1] == added[1]);
        }
    }
}

proof fn lemma_started_keeps_pairs(v: ActuatorView)
    requires
        flow_changes_paired(v.queue),
    ensures
        flow_changes_paired(v.started().queue),
{
    if v.can_start() {
        let r = v.started().queue;
        assert forall|i: int|
            0 <= i < r.len() && #[trigger] r[i].state == State::FlowChange implies i + 1 < r.len()
                && r[i + 1].state == State::Contracting && r[i + 1].speed == r[i].speed by {
            assert(r[i] == v.queue[i + 1]);
            assert(v.queue[i + 1].state == State::FlowChange);
            assert(r[i + 1] == v.queue[i + 2]);
        }
    }
}

/// A flow change only ever waits in the queue right before the contraction
/// that asked for it: requests (other than a bare flow change or a flow
/// reset), starting a
/// move, the end of a timer and pressure readings all keep this so.
pub proof fn lemma_flow_changes_stay_paired(v: ActuatorView, msg: ActuatorMessage, target: u8, reading: i16)
    requires
        flow_changes_paired(v.queue),
        msg.set_state != State::FlowChange,
        msg.set_state != State::FlowReset,
    ensures
        flow_changes_paired(v.received(msg).queue),
        flow_changes_paired(v.started().queue),
        flow_changes_paired(v.timer_done(target).queue),
        flow_changes_paired(v.updated(reading).queue),
{
    lemma_received_keeps_pairs(v, msg);
    lemma_started_keeps_pairs(v);
}


/// A flow reset closes the flow valve: on an idle actuator with nothing
/// queued, it turns the flow valve to speed 0 and waits `flow_change_time_ms`,
/// after which the flow speed is 0 and the actuator is idle again.
pub proof fn lemma_flow_reset_closes_flow(v: ActuatorView, msg: ActuatorMessage)
    requires
        v.state == State::Idle,
        v.queue.len() == 0,
        msg.set_state == State::FlowReset,
        v.settings.flow_change_time_ms > 0,
    ensures
        ({
            let v1 = v.received(msg);
            let v2 = v1.started().timer_done(0);
            &&& v1.started_commands() == seq![
                HardwareCommand::SetFlowValve {
                    servo: v.settings.flow_control_servo,
                    max_angle: v.settings.flow_max_angle,
                    speed: 0,
                },
            ]
            &&& v1.started().state == State::FlowChange
            &&& v1.started_timer() == Some(
                TimerRequest { delay_ms: v.settings.flow_change_time_ms, target_speed: 0 },
            )
            &&& v2.flow_speed == 0
            &&& v2.state == State::Idle
            &&& v2.queue.len() == 0
        }),
{
    let v1 = v.received(msg);
    assert(v1.queue =~= v.requested_actions(msg));
}


/// What a request adds to the queue, and that it changes nothing else. A
/// flow reset queues one flow change to speed 0 lasting `flow_change_time_ms`.
/// A contraction whose speed differs from the current flow speed by at least
/// a twentieth of the full opening (up or down) queues a flow change to its
/// speed, lasting `flow_change_time_ms`, and then the contraction itself. Any
/// other request queues just itself.
pub proof fn lemma_request_queues(v: ActuatorView, m: ActuatorMessage)
    ensures
        ({
            let after = v.received(m);
            let gap: int = if m.speed >= v.flow_speed {
                m.speed - v.flow_speed
            } else {
                v.flow_speed - m.speed
            };
            let own = ActuatorAction { state: m.set_state, speed: m.speed, delay: m.delay };
            let fct = v.settings.flow_change_time_ms;
            &&& after.state == v.state
            &&& after.flow_speed == v.flow_speed
            &&& after.pressure == v.pressure
            &&& after.settings == v.settings
            &&& after.name == v.name
            &&& m.set_state == State::FlowReset ==> after.queue == v.queue.push(
                ActuatorAction { state: State::FlowChange, speed: 0, delay: fct },
            )
            &&& (m.set_state == State::Contracting && gap * 20 >= 255) ==> after.queue
                == v.queue.push(
                ActuatorAction { state: State::FlowChange, speed: m.speed, delay: fct },
            ).push(own)
            &&& (m.set_state == State::Contracting && gap * 20 < 255) ==> after.queue
                == v.queue.push(own)
            &&& (m.set_state == State::Expanding || m.set_state == State::Idle || m.set_state
                == State::FlowChange) ==> after.queue == v.queue.push(own)
        }),
{
    let after = v.received(m);
    let own = ActuatorAction { state: m.set_state, speed: m.speed, delay: m.delay };
    let fct = v.settings.flow_change_time_ms;
    assert(v.queue.push(ActuatorAction { state: State::FlowChange, speed: 0, delay: fct })
        =~= v.queue + seq![ActuatorAction { state: State::FlowChange, speed: 0, delay: fct }]);
    assert(v.queue.push(ActuatorAction { state: State::FlowChange, speed: m.speed, delay: fct }).push(
        own,
    ) =~= v.queue + seq![
        ActuatorAction { state: State::FlowChange, speed: m.speed, delay: fct },
        own,
    ]);
    assert(v.queue.push(own) =~= v.queue + seq![own]);
}

/// How an idle actuator starts the first queued move `a`: the move leaves the
/// queue, the flow speed and pressure stay, and
/// * a contraction opens the inlet and closes the outlet, an expansion closes
///   the inlet and opens the outlet, a flow change turns the flow valve to
///   the move's speed, and an idle move or a flow reset closes both valves;
/// * a move with no delay then closes both valves and ends idle, with no
///   timer;
/// * a move with a delay asks for a timer of that delay: a flow change ends
///   at its own speed, every other move at the current flow speed, so only a
///   flow change ever changes the flow speed.
pub proof fn lemma_start_of_move(v: ActuatorView)
    requires
        v.state == State::Idle,
        v.queue.len() > 0,
    ensures
        ({
            let a = v.queue[0];
            let next = v.started();
            let cmds = v.started_commands();
            let inlet = v.settings.inlet_motor;
            let outlet = v.settings.outlet_motor;
            let open_inlet = seq![
                HardwareCommand::SetDcMotor { index: inlet, on: true },
                HardwareCommand::SetDcMotor { index: outlet, on: false },
            ];
            let open_outlet = seq![
                HardwareCommand::SetDcMotor { index: inlet, on: false },
                HardwareCommand::SetDcMotor { index: outlet, on: true },
            ];
            let close = seq![
                HardwareCommand::SetDcMotor { index: inlet, on: false },
                HardwareCommand::SetDcMotor { index: outlet, on: false },
            ];
            let valve = seq![
                HardwareCommand::SetFlowValve {
                    servo: v.settings.flow_control_servo,
                    max_angle: v.settings.flow_max_angle,
                    speed: a.speed,
                },
            ];
            let tail = if a.delay == 0 {
                close
            } else {
                Seq::<HardwareCommand>::empty()
            };
            &&& next.queue == v.queue.subrange(1, v.queue.len() as int)
            &&& next.flow_speed == v.flow_speed
            &&& next.pressure == v.pressure
            &&& next.settings == v.settings
            &&& a.state == State::Contracting ==> cmds == open_inlet + tail
            &&& a.state == State::Expanding ==> cmds == open_outlet + tail
            &&& a.state == State::FlowChange ==> cmds == valve + tail
            &&& (a.state == State::Idle || a.state == State::FlowReset) ==> cmds == close + tail
            &&& a.delay == 0 ==> next.state == State::Idle && v.started_timer()
                == None::<TimerRequest>
            &&& (a.delay > 0 && (a.state == State::Contracting || a.state == State::Expanding
                || a.state == State::FlowChange)) ==> next.state == a.state
            &&& (a.state == State::Idle || a.state == State::FlowReset) ==> next.state
                == State::Idle
            &&& (a.delay > 0 && a.state == State::FlowChange) ==> v.started_timer() == Some(
                TimerRequest { delay_ms: a.delay, target_speed: a.speed },
            )
            &&& (a.delay > 0 && a.state != State::FlowChange) ==> v.started_timer() == Some(
                TimerRequest { delay_ms: a.delay, target_speed: v.flow_speed },
            )
            &&& (a.delay > 0 && a.state != State::FlowChange) ==> next.timer_done(
                v.started_timer().unwrap().target_speed,
            ).flow_speed == v.flow_speed
        }),
{
    let a = v.queue[0];
    let inlet = v.settings.inlet_motor;
    let outlet = v.settings.outlet_motor;
    assert(v.started().queue =~= v.queue.subrange(1, v.queue.len() as int));
    if a.delay == 0 {
        assert(v.started_commands() =~= v.start_commands(a) + v.stop_commands());
    } else {
        assert(v.started_commands() =~= v.start_commands(a));
    }
    let tail = if a.delay == 0 {
        seq![
            HardwareCommand::SetDcMotor { index: inlet, on: false },
            HardwareCommand::SetDcMotor { index: outlet, on: false },
        ]
    } else {
        Seq::<HardwareCommand>::empty()
    };
    assert(v.start_commands(a) + tail =~= v.started_commands());
}

/// The end of a timer leaves the actuator idle at the given flow speed, with
/// the queue as it was; and a pressure reading is stored, and stops a
/// contraction (closing both valves) exactly when it is above the maximum.
pub proof fn lemma_timer_and_reading(v: ActuatorView, target: u8, reading: i16)
    ensures
        v.timer_done(target).state == State::Idle,
        v.timer_done(target).flow_speed == target,
        v.timer_done(target).queue == v.queue,
        v.updated(reading).pressure == reading,
        v.updated(reading).queue == v.queue,
        v.updated(reading).flow_speed == v.flow_speed,
        (v.state == State::Contracting && reading > v.settings.max_pressure) ==> v.updated(
            reading,
        ).state == State::Idle && v.update_commands(reading) == seq![
            HardwareCommand::SetDcMotor { index: v.settings.inlet_motor, on: false },
            HardwareCommand::SetDcMotor { index: v.settings.outlet_motor, on: false },
        ],
        !(v.state == State::Contracting && reading > v.settings.max_pressure) ==> v.updated(
            reading,
        ).state == v.state && v.update_commands(reading).len() == 0,
{
}

} // verus!
