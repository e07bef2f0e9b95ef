//! The registry and message handling of the puppet's websocket server.
//!
//! A client first registers with `R` and a role (0 admin, 1 puppeteer,
//! 2 a further controller); one client at most holds each role. A registered
//! client sends `A` (actuator) and `O` (orientation) commands, which go on to
//! the puppet, and `C` followed by `GET` or `SET` for the configuration.
//! Connections are named by the token number of their socket.

use crate::soft_error::SoftError;
use std::collections::HashMap;
use vstd::prelude::*;
use vstd::utf8::valid_utf8;

verus! {

broadcast use vstd::std_specs::hash::group_hash_axioms;

pub const ADMIN_ROLE: u8 = 0;

pub const PUPPET_ROLE: u8 = 1;

/// The highest role a client can register for.
pub const MAX_ROLE: u8 = 2;

pub const REGISTER_COMMAND: u8 = 82;  // 'R'

pub const ACTUATOR_COMMAND: u8 = 65;  // 'A'

pub const ORIENTATION_COMMAND: u8 = 79;  // 'O'

pub const CONFIG_COMMAND: u8 = 67;  // 'C'

pub const SENSING_MESSAGE: u8 = 83;  // 'S'

pub const PRESSURE_SENSING: u8 = 80;  // 'P'

pub const DEBUG_MESSAGE: u8 = 68;  // 'D'

/// The bytes `GET` of a configuration request.
pub open spec fn get_bytes() -> Seq<u8> {
    seq![71u8, 69u8, 84u8]
}

/// The bytes `SET` of a configuration change.
pub open spec fn set_bytes() -> Seq<u8> {
    seq![83u8, 69u8, 84u8]
}

/// What the server does with a message it accepted.
#[derive(Clone, Copy, PartialEq, Eq, Structural, Debug)]
pub enum ServerAction {
    /// The client now holds the role.
    Registered,
    /// Pass the message on to the puppet (an actuator command).
    ForwardActuator,
    /// Pass the message on to the puppet (an orientation command).
    ForwardOrientation,
    /// Send the client `F` and the configuration in JSON.
    SendConfig,
    /// Replace the configuration by the JSON after the first four bytes, and
    /// pass the message on to the puppet.
    ApplyConfig,
}

/// Why the server refused a message.
#[derive(Clone, Copy, PartialEq, Eq, Structural, Debug)]
pub enum ServerRefusal {
    RoleTaken,
    UnknownRole,
    UnknownConfigCommand,
    UnknownCommand,
    Disconnected,
}

/// The text that a refusal is answered with.
pub open spec fn refusal_text(r: ServerRefusal) -> Seq<char> {
    match r {
        ServerRefusal::RoleTaken => "There is already a controller connected. Please try again later!"@,
        ServerRefusal::UnknownRole => "Unknown role"@,
        ServerRefusal::UnknownConfigCommand => "Unknown CONFIG command"@,
        ServerRefusal::UnknownCommand => "Unknown command"@,
        ServerRefusal::Disconnected => "Disconnected. Please refresh and try again."@,
    }
}

/// The error for a refusal.
pub fn refusal_error(r: ServerRefusal) -> (e: SoftError)
    ensures
        e.message@ == refusal_text(r),
{
    match r {
        ServerRefusal::RoleTaken => SoftError::new(
            "There is already a controller connected. Please try again later!",
        ),
        ServerRefusal::UnknownRole => SoftError::new("Unknown role"),
        ServerRefusal::UnknownConfigCommand => SoftError::new("Unknown CONFIG command"),
        ServerRefusal::UnknownCommand => SoftError::new("Unknown command"),
        ServerRefusal::Disconnected => SoftError::new("Disconnected. Please refresh and try again."),
    }
}

/// Who holds which role: the role of each registered connection, and the
/// connection that registered each role.
pub struct ServerState {
    pub tokens: HashMap<usize, u8>,
    pub puppeteers: HashMap<u8, usize>,
}

/// The mathematical form of a [`ServerState`].
pub struct Registry {
    pub tokens: Map<usize, u8>,
    pub puppeteers: Map<u8, usize>,
}

impl View for ServerState {
    type V = Registry;

    open spec fn view(&self) -> Registry {
        Registry { tokens: self.tokens@, puppeteers: self.puppeteers@ }
    }
}

impl Registry {
    /// Every registered connection is the one that holds its role.
    pub open spec fn consistent(self) -> bool {
        forall|t: usize| #[trigger]
            self.tokens.contains_key(t) ==> self.puppeteers.contains_key(self.tokens[t])
                && self.puppeteers[self.tokens[t]] == t
    }

    /// The messages the server can read from connection `token`: those on
    /// which it does not fail. A registration needs its role byte; a
    /// configuration command of a registered client needs three bytes of
    /// valid UTF-8 after the letter.
    pub open spec fn readable(self, token: usize, data: Seq<u8>) -> bool {
        &&& data.len() >= 1
        &&& data[0] == REGISTER_COMMAND ==> data.len() >= 2
        &&& (data[0] != REGISTER_COMMAND && self.tokens.contains_key(token) && data[0]
            == CONFIG_COMMAND) ==> data.len() >= 4 && valid_utf8(data.subrange(1, 4))
    }

    /// The registry after, and the answer to, message `data` from `token`.
    pub open spec fn handled(self, token: usize, data: Seq<u8>) -> (
        Registry,
        Result<ServerAction, ServerRefusal>,
    ) {
        if data[0] == REGISTER_COMMAND {
            let role = data[1];
            if role > MAX_ROLE {
                (self, Err(ServerRefusal::UnknownRole))
            } else if self.puppeteers.contains_key(role) {
                (self, Err(ServerRefusal::RoleTaken))
            } else {
                (
                    Registry {
                        tokens: self.tokens.insert(token, role),
                        puppeteers: self.puppeteers.insert(role, token),
                    },
                    Ok(ServerAction::Registered),
                )
            }
        } else if !self.tokens.contains_key(token) {
            (self, Err(ServerRefusal::Disconnected))
        } else if data[0] == ACTUATOR_COMMAND {
            (self, Ok(ServerAction::ForwardActuator))
        } else if data[0] == ORIENTATION_COMMAND {
            (self, Ok(ServerAction::ForwardOrientation))
        } else if data[0] == CONFIG_COMMAND {
            if data.subrange(1, 4) == get_bytes() {
                (self, Ok(ServerAction::SendConfig))
            } else if data.subrange(1, 4) == set_bytes() {
                (self, Ok(ServerAction::ApplyConfig))
            } else {
                (self, Err(ServerRefusal::UnknownConfigCommand))
            }
        } else {
            (self, Err(ServerRefusal::UnknownCommand))
        }
    }

    /// The registry after connection `token` closed: it and its role are free.
    pub open spec fn closed(self, token: usize) -> Registry {
        if self.tokens.contains_key(token) {
            Registry {
                tokens: self.tokens.remove(token),
                puppeteers: self.puppeteers.remove(self.tokens[token]),
            }
        } else {
            self
        }
    }
}


/// Where a message from the puppet goes.
#[derive(Clone, Copy, PartialEq, Eq, Structural, Debug)]
pub enum SensingRoute {
    /// Send it on the connection with this token.
    ToConnection(usize),
    /// Nobody holds the role it is meant for; drop it.
    NoRecipient,
    /// A sensing message of an unknown kind (the second byte).
    UnknownSensing(u8),
    /// A message with an unknown first byte.
    UnknownCommand(u8),
}

impl Registry {
    /// The connection that holds `role`, if any.
    pub open spec fn holder(self, role: u8) -> SensingRoute {
        if self.puppeteers.contains_key(role) {
            SensingRoute::ToConnection(self.puppeteers[role])
        } else {
            SensingRoute::NoRecipient
        }
    }

    /// Where a message from the puppet goes: pressure readings (`S` `P`) to
    /// the puppeteer, debug messages (`D`) to the admin.
    pub open spec fn route(self, msg: Seq<u8>) -> SensingRoute {
        if msg[0] == SENSING_MESSAGE {
            if msg[1] == PRESSURE_SENSING {
                self.holder(PUPPET_ROLE)
            } else {
                SensingRoute::UnknownSensing(msg[1])
            }
        } else if msg[0] == DEBUG_MESSAGE {
            self.holder(ADMIN_ROLE)
        } else {
            SensingRoute::UnknownCommand(msg[0])
        }
    }

    /// The puppet messages the server can read: those on which it does not fail.
    pub open spec fn routable(msg: Seq<u8>) -> bool {
        &&& msg.len() >= 1
        &&& msg[0] == SENSING_MESSAGE ==> msg.len() >= 2
    }
}

impl ServerState {
    /// No connection registered.
    pub fn new() -> (s: ServerState)
        ensures
            s@.tokens == Map::<usize, u8>::empty(),
            s@.puppeteers == Map::<u8, usize>::empty(),
    {
        ServerState { tokens: HashMap::new(), puppeteers: HashMap::new() }
    }

    /// Whether the server can read message `data` from connection `token`.
    pub fn is_readable(&self, token: usize, data: &[u8]) -> (r: bool)
        ensures
            r == self@.readable(token, data@),
    {
        if data.len() == 0 {
            return false;
        }
        if data[0] == REGISTER_COMMAND {
            return data.len() >= 2;
        }
        if data[0] == CONFIG_COMMAND && self.tokens.contains_key(&token) {
            if data.len() < 4 {
                return false;
            }
            return crate::text::str_from_utf8(&data[1..4]).is_some();
        }
        true
    }

    /// Handle message `data` from connection `token`.
    pub fn handle_message(&mut self, token: usize, data: &[u8]) -> (r: Result<ServerAction, SoftError>)
        requires
            old(self)@.readable(token, data@),
        ensures
            final(self)@ == old(self)@.handled(token, data@).0,
            match old(self)@.handled(token, data@).1 {
                Ok(action) => r == Ok::<ServerAction, SoftError>(action),
                Err(refusal) => r matches Err(e) && e.message@ == refusal_text(refusal),
            },
            old(self)@.tokens.contains_key(token) && data@[0] == 65u8 ==> r == Ok::<
                ServerAction,
                SoftError,
            >(ServerAction::ForwardActuator),
            old(self)@.tokens.contains_key(token) && data@[0] == 79u8 ==> r == Ok::<
                ServerAction,
                SoftError,
            >(ServerAction::ForwardOrientation),
    {
        let command = data[0];
        if command == REGISTER_COMMAND {
            let role = data[1];
            if role > MAX_ROLE {
                return Err(refusal_error(ServerRefusal::UnknownRole));
            }
            if self.puppeteers.contains_key(&role) {
                return Err(refusal_error(ServerRefusal::RoleTaken));
            }
            self.tokens.insert(token, role);
            self.puppeteers.insert(role, token);
            return Ok(ServerAction::Registered);
        }
        if !self.tokens.contains_key(&token) {
            return Err(refusal_error(ServerRefusal::Disconnected));
        }
        if command == ACTUATOR_COMMAND {
            Ok(ServerAction::ForwardActuator)
        } else if command == ORIENTATION_COMMAND {
            Ok(ServerAction::ForwardOrientation)
        } else if command == CONFIG_COMMAND {
            let (a, b, c) = (data[1], data[2], data[3]);
            if a == 71 && b == 69 && c == 84 {
                assert(data@.subrange(1, 4) =~= get_bytes());
                Ok(ServerAction::SendConfig)
            } else if a == 83 && b == 69 && c == 84 {
                assert(data@.subrange(1, 4) =~= set_bytes());
                Ok(ServerAction::ApplyConfig)
            } else {
                assert(data@.subrange(1, 4) != get_bytes() && data@.subrange(1, 4) != set_bytes()) by {
                    assert(get_bytes()[0] == 71 && get_bytes()[1] == 69 && get_bytes()[2] == 84);
                    assert(set_bytes()[0] == 83 && set_bytes()[1] == 69 && set_bytes()[2] == 84);
                    assert(data@.subrange(1, 4)[0] == a);
                    assert(data@.subrange(1, 4)[1] == b);
                    assert(data@.subrange(1, 4)[2] == c);
                }
                Err(refusal_error(ServerRefusal::UnknownConfigCommand))
            }
        } else {
            Err(refusal_error(ServerRefusal::UnknownCommand))
        }
    }

    /// Connection `token` closed: free it and its role.
    pub fn disconnect(&mut self, token: usize)
        ensures
            final(self)@ == old(self)@.closed(token),
    {
        let ghost before = self@;
        match self.tokens.remove(&token) {
            Some(role) => {
                assert(role == before.tokens[token]);
                self.puppeteers.remove(&role);
                assert(self@.tokens == before.tokens.remove(token));
                assert(self@.puppeteers == before.puppeteers.remove(role));
            },
            None => {
                assert(self@.tokens == before.tokens.remove(token));
                assert(self@.tokens =~= before.tokens);
            },
        }
    }

    /// Whether the server can read message `msg` from the puppet.
    pub fn is_routable(msg: &[u8]) -> (r: bool)
        ensures
            r == Registry::routable(msg@),
    {
        msg.len() >= 1 && (msg[0] != SENSING_MESSAGE || msg.len() >= 2)
    }

    /// Where a message from the puppet goes.
    pub fn route_sensing(&self, msg: &[u8]) -> (r: SensingRoute)
        requires
            Registry::routable(msg@),
        ensures
            r == self@.route(msg@),
    {
        let role = if msg[0] == SENSING_MESSAGE {
            if msg[1] == PRESSURE_SENSING {
                PUPPET_ROLE
            } else {
                return SensingRoute::UnknownSensing(msg[1]);
            }
        } else if msg[0] == DEBUG_MESSAGE {
            ADMIN_ROLE
        } else {
            return SensingRoute::UnknownCommand(msg[0]);
        };
        match self.puppeteers.get(&role) {
            Some(token) => SensingRoute::ToConnection(*token),
            None => SensingRoute::NoRecipient,
        }
    }
}


/// Every message keeps the registry consistent: each registered connection is
/// the one that holds its role.
pub proof fn lemma_handling_keeps_registry_consistent(r: Registry, token: usize, data: Seq<u8>)
    requires
        r.consistent(),
        r.readable(token, data),
    ensures
        r.handled(token, data).0.consistent(),
{
    let next = r.handled(token, data).0;
    if data[0] == REGISTER_COMMAND && data[1] <= MAX_ROLE && !r.puppeteers.contains_key(data[1]) {
        assert forall|t: usize| #[trigger] next.tokens.contains_key(t) implies next.puppeteers.contains_key(
            next.tokens[t],
        ) && next.puppeteers[next.tokens[t]] == t by {
            if t != token {
                assert(r.tokens.contains_key(t));
                assert(r.puppeteers.contains_key(r.tokens[t]));
            }
        }
    }
}

/// Closing a connection keeps the registry consistent.
pub proof fn lemma_closing_keeps_registry_consistent(r: Registry, token: usize)
    requires
        r.consistent(),
    ensures
        r.closed(token).consistent(),
{
    let next = r.closed(token);
    if r.tokens.contains_key(token) {
        assert forall|t: usize| #[trigger] next.tokens.contains_key(t) implies next.puppeteers.contains_key(
            next.tokens[t],
        ) && next.puppeteers[next.tokens[t]] == t by {
            assert(r.tokens.contains_key(t));
            assert(r.puppeteers[r.tokens[t]] == t);
            assert(r.puppeteers[r.tokens[token]] == token);
        }
    }
}

/// Closing a connection undoes its registration: a fresh connection that
/// registers for a free role and then closes leaves the registry as it was.
pub proof fn lemma_close_undoes_registration(r: Registry, token: usize, role: u8)
    requires
        !r.tokens.contains_key(token),
        !r.puppeteers.contains_key(role),
        role <= MAX_ROLE,
    ensures
        r.handled(token, seq![REGISTER_COMMAND, role]).1 == Ok::<ServerAction, ServerRefusal>(
            ServerAction::Registered,
        ),
        r.handled(token, seq![REGISTER_COMMAND, role]).0.closed(token) == r,
{
    let next = r.handled(token, seq![REGISTER_COMMAND, role]).0;
    assert(next.closed(token).tokens =~= r.tokens);
    assert(next.closed(token).puppeteers =~= r.puppeteers);
}

/// A role is held by one connection at most: asking for a role that is held
/// is refused and changes nothing.
pub proof fn lemma_held_role_is_refused(r: Registry, token: usize, data: Seq<u8>)
    requires
        r.readable(token, data),
        data[0] == REGISTER_COMMAND,
        r.puppeteers.contains_key(data[1]),
    ensures
        r.handled(token, data) == (r, Err::<ServerAction, ServerRefusal>(
            if data[1] > MAX_ROLE {
                ServerRefusal::UnknownRole
            } else {
                ServerRefusal::RoleTaken
            },
        )),
{
}

/// A connection that has not registered can only register: anything else is
/// answered with the disconnection notice and changes nothing.
pub proof fn lemma_unregistered_client_is_refused(r: Registry, token: usize, data: Seq<u8>)
    requires
        r.readable(token, data),
        data[0] != REGISTER_COMMAND,
        !r.tokens.contains_key(token),
    ensures
        r.handled(token, data) == (r, Err::<ServerAction, ServerRefusal>(ServerRefusal::Disconnected)),
{
}

/// Every pressure report of an actuator goes to the client that holds the
/// puppeteer role, and is dropped when nobody holds it.
pub proof fn lemma_pressure_reports_reach_puppeteer(r: Registry, name: Seq<char>, pressure: i16)
    ensures
        Registry::routable(crate::actuator::pressure_report_bytes(name, pressure)),
        r.route(crate::actuator::pressure_report_bytes(name, pressure)) == r.holder(PUPPET_ROLE),
{
    let bytes = crate::actuator::pressure_report_bytes(name, pressure);
    assert(bytes[0] == 83u8);
    assert(bytes[1] == 80u8);
}

/// A registered client's commands are answered by their letter alone,
/// whatever role the client holds: `A` goes on to the puppet as an actuator
/// command, `O` as an orientation command, `C` `GET` asks for the
/// configuration, `C` `SET` replaces it, any other `C` command is refused as
/// an unknown configuration command and any other letter as an unknown
/// command. None of them changes the registry.
pub proof fn lemma_registered_client_commands(r: Registry, token: usize, data: Seq<u8>)
    requires
        r.readable(token, data),
        r.tokens.contains_key(token),
        data[0] != 82u8,
    ensures
        data[0] == 65u8 ==> r.handled(token, data) == (r, Ok::<ServerAction, ServerRefusal>(
            ServerAction::ForwardActuator,
        )),
        data[0] == 79u8 ==> r.handled(token, data) == (r, Ok::<ServerAction, ServerRefusal>(
            ServerAction::ForwardOrientation,
        )),
        data[0] == 67u8 && data[1] == 71u8 && data[2] == 69u8 && data[3] == 84u8 ==> r.handled(
            token,
            data,
        ) == (r, Ok::<ServerAction, ServerRefusal>(ServerAction::SendConfig)),
        data[0] == 67u8 && data[1] == 83u8 && data[2] == 69u8 && data[3] == 84u8 ==> r.handled(
            token,
            data,
        ) == (r, Ok::<ServerAction, ServerRefusal>(ServerAction::ApplyConfig)),
        data[0] == 67u8 && !(data[1] == 71u8 && data[2] == 69u8 && data[3] == 84u8) && !(data[1]
            == 83u8 && data[2] == 69u8 && data[3] == 84u8) ==> r.handled(token, data) == (
            r,
            Err::<ServerAction, ServerRefusal>(ServerRefusal::UnknownConfigCommand),
        ),
        data[0] != 65u8 && data[0] != 79u8 && data[0] != 67u8 ==> r.handled(token, data) == (
            r,
            Err::<ServerAction, ServerRefusal>(ServerRefusal::UnknownCommand),
        ),
{
    if data[0] == 67u8 {
        let cmd = data.subrange(1, 4);
        assert(cmd[0] == data[1] && cmd[1] == data[2] && cmd[2] == data[3]);
        if data[1] == 71u8 && data[2] == 69u8 && data[3] == 84u8 {
            assert(cmd =~= get_bytes());
        } else if data[1] == 83u8 && data[2] == 69u8 && data[3] == 84u8 {
            assert(cmd =~= set_bytes());
        } else {
            assert(cmd != get_bytes() && cmd != set_bytes()) by {
                assert(get_bytes()[0] == 71u8 && get_bytes()[1] == 69u8 && get_bytes()[2] == 84u8);
                assert(set_bytes()[0] == 83u8 && set_bytes()[1] == 69u8 && set_bytes()[2] == 84u8);
            }
        }
    }
}

/// A registration for a free role 0, 1 or 2 is accepted: the connection now
/// holds the role and the role is held by the connection. A role above 2 is
/// refused as unknown, and changes nothing.
pub proof fn lemma_registration(r: Registry, token: usize, role: u8)
    ensures
        role <= 2 && !r.puppeteers.contains_key(role) ==> r.handled(token, seq![82u8, role]) == (
            Registry {
                tokens: r.tokens.insert(token, role),
                puppeteers: r.puppeteers.insert(role, token),
            },
            Ok::<ServerAction, ServerRefusal>(ServerAction::Registered),
        ),
        role > 2 ==> r.handled(token, seq![82u8, role]) == (r, Err::<ServerAction, ServerRefusal>(
            ServerRefusal::UnknownRole,
        )),
{
}

/// Every registered client can send actuator and orientation commands, and
/// `C` with `GET` or `SET`: the server reads each of them.
pub proof fn lemma_registered_commands_are_readable(r: Registry, token: usize, data: Seq<u8>)
    requires
        r.tokens.contains_key(token),
        data.len() >= 1,
        data[0] == 65u8 || data[0] == 79u8 || (data.len() >= 4 && data[0] == 67u8 && (
        data.subrange(1, 4) == seq![71u8, 69u8, 84u8] || data.subrange(1, 4) == seq![
            83u8,
            69u8,
            84u8,
        ])),
    ensures
        r.readable(token, data),
{
    reveal_with_fuel(valid_utf8, 4);
}

} // verus!
