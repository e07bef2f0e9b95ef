//! Messages that the server hands to the puppet thread.
//!
//! * `A`, an actuator's name, a zero byte, then a command letter: `C`
//!   (contract) or `E` (expand) followed by a speed byte and a little-endian
//!   delay in milliseconds, `S` (stop) or `R` (flow reset);
//! * `C`, a configuration change, which the puppet ignores;
//! * `O` followed by an orientation angle in degrees.

use crate::actuator::{ActuatorMessage, State, FULL_SPEED};
use crate::text::str_from_utf8;
use vstd::prelude::*;
use vstd::utf8::{decode_utf8, valid_utf8};

verus! {

broadcast use vstd::utf8::encode_utf8_decode_utf8;

pub const ACTUATOR_COMMAND: u8 = 65;  // 'A'

pub const CONFIG_COMMAND: u8 = 67;  // 'C'

pub const ORIENTATION_COMMAND: u8 = 79;  // 'O'

pub const CONTRACT: u8 = 67;  // 'C'

pub const EXPAND: u8 = 69;  // 'E'

pub const STOP: u8 = 83;  // 'S'

pub const FLOW_RESET: u8 = 82;  // 'R'

/// What an actuator is told to do.
#[derive(Clone, Copy, PartialEq, Eq, Structural, Debug)]
pub enum ActuatorCommand {
    Contract { speed: u8, delay: u16 },
    Expand { speed: u8, delay: u16 },
    Stop,
    FlowReset,
    Unknown(u8),
}

/// The request that an actuator command gives the actuator. A stop asks for
/// the idle state, and a flow reset for a flow reset, both at full speed with
/// no delay. An unknown letter gives none.
pub open spec fn command_message(command: ActuatorCommand) -> Option<ActuatorMessage> {
    match command {
        ActuatorCommand::Contract { speed, delay } => Some(
            ActuatorMessage { set_state: State::Contracting, speed, delay },
        ),
        ActuatorCommand::Expand { speed, delay } => Some(
            ActuatorMessage { set_state: State::Expanding, speed, delay },
        ),
        ActuatorCommand::Stop => Some(
            ActuatorMessage { set_state: State::Idle, speed: FULL_SPEED, delay: 0 },
        ),
        ActuatorCommand::FlowReset => Some(
            ActuatorMessage { set_state: State::FlowReset, speed: FULL_SPEED, delay: 0 },
        ),
        ActuatorCommand::Unknown(_) => None,
    }
}

impl ActuatorCommand {
    /// The request for the actuator, if the command makes one.
    pub fn to_message(self) -> (m: Option<ActuatorMessage>)
        ensures
            m == command_message(self),
            self matches ActuatorCommand::Contract { speed, delay } ==> m == Some(
                ActuatorMessage { set_state: State::Contracting, speed, delay },
            ),
            self matches ActuatorCommand::Expand { speed, delay } ==> m == Some(
                ActuatorMessage { set_state: State::Expanding, speed, delay },
            ),
    {
        match self {
            ActuatorCommand::Contract { speed, delay } => Some(
                ActuatorMessage::set_state(State::Contracting, speed, delay),
            ),
            ActuatorCommand::Expand { speed, delay } => Some(
                ActuatorMessage::set_state(State::Expanding, speed, delay),
            ),
            ActuatorCommand::Stop => Some(ActuatorMessage::set_state(State::Idle, FULL_SPEED, 0)),
            ActuatorCommand::FlowReset => Some(
                ActuatorMessage::set_state(State::FlowReset, FULL_SPEED, 0),
            ),
            ActuatorCommand::Unknown(_) => None,
        }
    }
}

/// A decoded message for the puppet.
#[derive(Debug)]
pub enum PuppetCommand {
    /// A command for the actuator called `name`, which exists.
    Actuator { name: String, command: ActuatorCommand },
    /// A command for an actuator that does not exist.
    UnknownActuator { name: String },
    /// A configuration change.
    Config,
    /// Turn the puppet to `angle` degrees.
    Orientation { angle: u8 },
    /// A message with an unknown first byte.
    Unknown(u8),
}

/// The mathematical form of a [`PuppetCommand`].
pub enum PuppetCommandView {
    Actuator { name: Seq<char>, command: ActuatorCommand },
    UnknownActuator { name: Seq<char> },
    Config,
    Orientation { angle: u8 },
    Unknown(u8),
}

impl View for PuppetCommand {
    type V = PuppetCommandView;

    open spec fn view(&self) -> PuppetCommandView {
        match self {
            PuppetCommand::Actuator { name, command } => PuppetCommandView::Actuator {
                name: name@,
                command: *command,
            },
            PuppetCommand::UnknownActuator { name } => PuppetCommandView::UnknownActuator {
                name: name@,
            },
            PuppetCommand::Config => PuppetCommandView::Config,
            PuppetCommand::Orientation { angle } => PuppetCommandView::Orientation { angle: *angle },
            PuppetCommand::Unknown(c) => PuppetCommandView::Unknown(*c),
        }
    }
}

/// `i` is the first position of a zero byte in `msg`.
pub open spec fn is_first_zero(msg: Seq<u8>, i: int) -> bool {
    &&& 0 <= i < msg.len()
    &&& msg[i] == 0
    &&& forall|j: int| 0 <= j < i ==> msg[j] != 0
}

pub open spec fn has_zero(msg: Seq<u8>) -> bool {
    exists|i: int| 0 <= i < msg.len() && msg[i] == 0
}

/// The position of the first zero byte of `msg` (meaningful when it has one).
pub open spec fn first_zero(msg: Seq<u8>) -> int {
    choose|i: int| is_first_zero(msg, i)
}

/// The 16-bit number whose little-endian bytes are `low`, `high`.
pub open spec fn le_u16(low: u8, high: u8) -> u16 {
    (low + 256 * high) as u16
}

/// The bytes of the actuator's name in an actuator message.
pub open spec fn actuator_name_bytes(msg: Seq<u8>) -> Seq<u8> {
    msg.subrange(1, first_zero(msg))
}

/// The command of an actuator message whose name ends at `end`.
pub open spec fn actuator_command_at(msg: Seq<u8>, end: int) -> ActuatorCommand {
    let c = msg[end + 1];
    if c == CONTRACT {
        ActuatorCommand::Contract { speed: msg[end + 2], delay: le_u16(msg[end + 3], msg[end + 4]) }
    } else if c == EXPAND {
        ActuatorCommand::Expand { speed: msg[end + 2], delay: le_u16(msg[end + 3], msg[end + 4]) }
    } else if c == STOP {
        ActuatorCommand::Stop
    } else if c == FLOW_RESET {
        ActuatorCommand::FlowReset
    } else {
        ActuatorCommand::Unknown(c)
    }
}

/// Whether `name` is one of `names`.
pub open spec fn is_known(names: Seq<String>, name: Seq<char>) -> bool {
    exists|i: int| 0 <= i < names.len() && names[i]@ == name
}

/// The messages that the puppet can read: those on which it does not fail.
/// An actuator message needs its zero byte, a name in UTF-8 and a command
/// letter; a contraction or expansion of an existing actuator needs its speed
/// and delay too. An orientation message needs its angle.
pub open spec fn decodable(msg: Seq<u8>, names: Seq<String>) -> bool {
    &&& msg.len() >= 1
    &&& msg[0] == ACTUATOR_COMMAND ==> {
        &&& has_zero(msg)
        &&& valid_utf8(actuator_name_bytes(msg))
        &&& first_zero(msg) + 1 < msg.len()
        &&& (is_known(names, decode_utf8(actuator_name_bytes(msg))) && (msg[first_zero(msg) + 1]
            == CONTRACT || msg[first_zero(msg) + 1] == EXPAND)) ==> first_zero(msg) + 4
            < msg.len()
    }
    &&& msg[0] == ORIENTATION_COMMAND ==> msg.len() >= 2
}

/// What a readable message means.
pub open spec fn decoded(msg: Seq<u8>, names: Seq<String>) -> PuppetCommandView {
    if msg[0] == ACTUATOR_COMMAND {
        let name = decode_utf8(actuator_name_bytes(msg));
        if is_known(names, name) {
            PuppetCommandView::Actuator {
                name,
                command: actuator_command_at(msg, first_zero(msg)),
            }
        } else {
            PuppetCommandView::UnknownActuator { name }
        }
    } else if msg[0] == CONFIG_COMMAND {
        PuppetCommandView::Config
    } else if msg[0] == ORIENTATION_COMMAND {
        PuppetCommandView::Orientation { angle: msg[1] }
    } else {
        PuppetCommandView::Unknown(msg[0])
    }
}

/// The position of the first zero byte, if any.
fn find_zero(msg: &[u8]) -> (r: Option<usize>)
    ensures
        r matches Some(i) ==> is_first_zero(msg@, i as int) && first_zero(msg@) == i,
        r is None ==> !has_zero(msg@),
{
    let n = msg.len();
    for i in 0..n
        invariant
            n == msg@.len(),
            forall|j: int| 0 <= j < i ==> msg@[j] != 0,
    {
        if msg[i] == 0 {
            assert(is_first_zero(msg@, i as int));
            let ghost k = first_zero(msg@);
            assert(is_first_zero(msg@, k));
            assert(k == i as int) by {
                if k < i as int {
                    assert(msg@[k] != 0);
                } else if k > i as int {
                    assert(msg@[i as int] != 0);
                }
            }
            return Some(i);
        }
    }
    None
}

/// Whether `name` is one of `names`.
fn name_known(names: &[String], name: &String) -> (r: bool)
    ensures
        r == is_known(names@, name@),
{
    let n = names.len();
    for i in 0..n
        invariant
            n == names@.len(),
            forall|j: int| 0 <= j < i ==> names@[j]@ != name@,
    {
        if names[i] == *name {
            return true;
        }
    }
    false
}

/// Whether the puppet can read `msg`, given the names of its actuators.
pub fn is_decodable(msg: &[u8], names: &[String]) -> (r: bool)
    ensures
        r == decodable(msg@, names@),
{
    if msg.len() == 0 {
        return false;
    }
    if msg[0] == ORIENTATION_COMMAND {
        return msg.len() >= 2;
    }
    if msg[0] != ACTUATOR_COMMAND {
        return true;
    }
    match find_zero(msg) {
        None => false,
        Some(end) => {
            match str_from_utf8(&msg[1..end]) {
                None => false,
                Some(text) => {
                    if end + 1 >= msg.len() {
                        return false;
                    }
                    let name = text.to_owned();
                    let c = msg[end + 1];
                    if name_known(names, &name) && (c == CONTRACT || c == EXPAND) {
                        msg.len() - end > 4
                    } else {
                        true
                    }
                },
            }
        },
    }
}

/// Read a message for the puppet, given the names of its actuators.
pub fn decode_puppet_message(msg: &[u8], names: &[String]) -> (cmd: PuppetCommand)
    requires
        decodable(msg@, names@),
    ensures
        cmd@ == decoded(msg@, names@),
{
    if msg[0] == ACTUATOR_COMMAND {
        let end = match find_zero(msg) {
            Some(end) => end,
            None => {
                return PuppetCommand::Unknown(msg[0]);
            },
        };
        let text = match str_from_utf8(&msg[1..end]) {
            Some(text) => text,
            None => {
                return PuppetCommand::Unknown(msg[0]);
            },
        };
        let name = text.to_owned();
        assert(name@ == decode_utf8(actuator_name_bytes(msg@)));
        let c = msg[end + 1];
        if !name_known(names, &name) {
            return PuppetCommand::UnknownActuator { name };
        }
        let command = if c == CONTRACT {
            ActuatorCommand::Contract {
                speed: msg[end + 2],
                delay: msg[end + 3] as u16 + 256 * (msg[end + 4] as u16),
            }
        } else if c == EXPAND {
            ActuatorCommand::Expand {
                speed: msg[end + 2],
                delay: msg[end + 3] as u16 + 256 * (msg[end + 4] as u16),
            }
        } else if c == STOP {
            ActuatorCommand::Stop
        } else if c == FLOW_RESET {
            ActuatorCommand::FlowReset
        } else {
            ActuatorCommand::Unknown(c)
        };
        PuppetCommand::Actuator { name, command }
    } else if msg[0] == CONFIG_COMMAND {
        PuppetCommand::Config
    } else if msg[0] == ORIENTATION_COMMAND {
        PuppetCommand::Orientation { angle: msg[1] }
    } else {
        PuppetCommand::Unknown(msg[0])
    }
}


/// The layout of a contraction or expansion request: `A`, the UTF-8 bytes of
/// the actuator's name (no zero byte among them), a zero byte, the letter, the
/// speed and the two bytes of the delay, low byte first. Such a message is
/// readable, and for a known actuator it reads back as that command with
/// exactly that speed and delay.
pub proof fn lemma_speed_command_layout(
    name: Seq<u8>,
    letter: u8,
    speed: u8,
    low: u8,
    high: u8,
    names: Seq<String>,
)
    requires
        valid_utf8(name),
        forall|i: int| 0 <= i < name.len() ==> name[i] != 0,
        letter == CONTRACT || letter == EXPAND,
    ensures
        ({
            let msg = seq![ACTUATOR_COMMAND] + name + seq![0u8, letter, speed, low, high];
            &&& decodable(msg, names)
            &&& is_known(names, decode_utf8(name)) ==> decoded(msg, names) == PuppetCommandView::Actuator {
                name: decode_utf8(name),
                command: if letter == CONTRACT {
                    ActuatorCommand::Contract { speed, delay: le_u16(low, high) }
                } else {
                    ActuatorCommand::Expand { speed, delay: le_u16(low, high) }
                },
            }
            &&& !is_known(names, decode_utf8(name)) ==> decoded(msg, names)
                == PuppetCommandView::UnknownActuator { name: decode_utf8(name) }
        }),
{
    let msg = seq![ACTUATOR_COMMAND] + name + seq![0u8, letter, speed, low, high];
    let end: int = name.len() as int + 1;
    assert(msg[end] == 0);
    assert forall|j: int| 0 <= j < end implies msg[j] != 0 by {
        if j > 0 {
            assert(msg[j] == name[j - 1]);
        }
    }
    assert(is_first_zero(msg, end));
    let k = first_zero(msg);
    assert(is_first_zero(msg, k));
    assert(k == end) by {
        if k < end {
            assert(msg[k] != 0);
        } else if k > end {
            assert(msg[end] != 0);
        }
    }
    assert(has_zero(msg));
    assert(actuator_name_bytes(msg) =~= name);
    assert(msg[end + 1] == letter);
    assert(msg[end + 2] == speed);
    assert(msg[end + 3] == low);
    assert(msg[end + 4] == high);
}


/// Each actuator command asks the actuator for the move it names, with the
/// speed and delay it carries: a contraction for `C`, an expansion for `E`,
/// the idle state at full speed for `S`, a flow reset at full speed for `R`,
/// and nothing for an unknown letter.
pub proof fn lemma_command_requests(speed: u8, delay: u16, letter: u8)
    ensures
        command_message(ActuatorCommand::Contract { speed, delay }) == Some(
            ActuatorMessage { set_state: State::Contracting, speed, delay },
        ),
        command_message(ActuatorCommand::Expand { speed, delay }) == Some(
            ActuatorMessage { set_state: State::Expanding, speed, delay },
        ),
        command_message(ActuatorCommand::Stop) == Some(
            ActuatorMessage { set_state: State::Idle, speed: 255, delay: 0 },
        ),
        command_message(ActuatorCommand::FlowReset) == Some(
            ActuatorMessage { set_state: State::FlowReset, speed: 255, delay: 0 },
        ),
        command_message(ActuatorCommand::Unknown(letter)) == None::<ActuatorMessage>,
{
}

} // verus!
