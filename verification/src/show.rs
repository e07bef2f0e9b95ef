//! The registry and message handling of the virtual show server.
//!
//! As in the puppet server, a client registers with `R`, a role (0 to 2) and
//! then its display name in UTF-8; each role has at most one holder, who gets
//! a puppet with a starting position. A registered client moves its puppet
//! with `S`, `POS` and the two coordinates. After each change the server
//! sends every client the state of all puppets.

use crate::soft_error::SoftError;
use std::collections::HashMap;
use vstd::prelude::*;
use vstd::utf8::{decode_utf8, valid_utf8};

verus! {

broadcast use {vstd::std_specs::hash::group_hash_axioms, vstd::utf8::encode_utf8_decode_utf8};

pub const REGISTER_COMMAND: u8 = 82;  // 'R'

pub const STATE_COMMAND: u8 = 83;  // 'S'

/// The highest role a client can register for.
pub const MAX_ROLE: u8 = 2;

/// The bytes `POS` of a position update.
pub open spec fn pos_bytes() -> Seq<u8> {
    seq![80u8, 79u8, 83u8]
}

/// Where the show server listens.
pub struct ServerConfig {
    pub port: u16,
}

/// Whether and which YouTube live chat the show follows.
pub struct YTChatConfig {
    pub enabled: bool,
    pub chat_id: String,
    pub api_key: String,
}

/// The configuration of the show server.
pub struct Config {
    pub server: ServerConfig,
    pub ytchat: YTChatConfig,
    pub version: String,
}

/// A puppet of the show.
pub struct Puppet {
    pub connected: bool,
    pub position: Vec<u8>,
    pub name: String,
    pub action: bool,
}

/// The mathematical form of a [`Puppet`].
pub struct PuppetView {
    pub connected: bool,
    pub position: Seq<u8>,
    pub name: Seq<char>,
    pub action: bool,
}

impl View for Puppet {
    type V = PuppetView;

    open spec fn view(&self) -> PuppetView {
        PuppetView {
            connected: self.connected,
            position: self.position@,
            name: self.name@,
            action: self.action,
        }
    }
}

/// Where the puppet of each role starts: role 1 at (105, 105), role 2 at
/// (180, 105), any other at (0, 0).
pub open spec fn start_position(role: u8) -> Seq<u8> {
    if role == 1 {
        seq![105u8, 105u8]
    } else if role == 2 {
        seq![180u8, 105u8]
    } else {
        seq![0u8, 0u8]
    }
}

/// What the show server does with a message it accepted; after a
/// registration or a move it sends the state of all puppets.
#[derive(Clone, Copy, PartialEq, Eq, Structural, Debug)]
pub enum ShowAction {
    Registered,
    Moved,
    /// A state command other than `POS`: nothing happens.
    Ignored,
}

/// Why the show server refused a message.
#[derive(Clone, Copy, PartialEq, Eq, Structural, Debug)]
pub enum ShowRefusal {
    RoleTaken,
    UnknownRole,
    UnknownCommand,
    Disconnected,
}

/// The text that a refusal is answered with.
pub open spec fn refusal_text(r: ShowRefusal) -> Seq<char> {
    match r {
        ShowRefusal::RoleTaken => "There is already a controller connected. Please try again later!"@,
        ShowRefusal::UnknownRole => "Unknown role"@,
        ShowRefusal::UnknownCommand => "Unknown command"@,
        ShowRefusal::Disconnected => "Disconnected. Please refresh and try again."@,
    }
}

fn refusal_error(r: ShowRefusal) -> (e: SoftError)
    ensures
        e.message@ == refusal_text(r),
{
    match r {
        ShowRefusal::RoleTaken => SoftError::new(
            "There is already a controller connected. Please try again later!",
        ),
        ShowRefusal::UnknownRole => SoftError::new("Unknown role"),
        ShowRefusal::UnknownCommand => SoftError::new("Unknown command"),
        ShowRefusal::Disconnected => SoftError::new("Disconnected. Please refresh and try again."),
    }
}

/// The clients of the show and their puppets.
pub struct ShowState {
    tokens: HashMap<usize, u8>,
    puppeteers: HashMap<u8, usize>,
    pup_state: HashMap<u8, Puppet>,
}

/// The mathematical form of a [`ShowState`].
pub struct ShowModel {
    pub tokens: Map<usize, u8>,
    pub puppeteers: Map<u8, usize>,
    pub puppets: Map<u8, PuppetView>,
}

impl View for ShowState {
    type V = ShowModel;

    closed spec fn view(&self) -> ShowModel {
        ShowModel {
            tokens: self.tokens@,
            puppeteers: self.puppeteers@,
            puppets: self.pup_state@.map_values(|p: Puppet| p@),
        }
    }
}

impl ShowModel {
    /// Every registered connection holds its role, whose puppet exists and
    /// has two coordinates; there is a puppet exactly for each held role.
    pub open spec fn consistent(self) -> bool {
        &&& self.puppets.dom() == self.puppeteers.dom()
        &&& forall|t: usize| #[trigger]
            self.tokens.contains_key(t) ==> {
                &&& self.puppeteers.contains_key(self.tokens[t])
                &&& self.puppeteers[self.tokens[t]] == t
                &&& self.puppets.contains_key(self.tokens[t])
                &&& self.puppets[self.tokens[t]].position.len() == 2
            }
    }

    /// Whether a registration for `role` is accepted.
    pub open spec fn registers(self, data: Seq<u8>) -> bool {
        data[0] == REGISTER_COMMAND && data[1] <= MAX_ROLE && !self.puppeteers.contains_key(data[1])
    }

    /// The messages the show server can read from connection `token`: those
    /// on which it does not fail. A registration needs its role, and when it
    /// is accepted a name in UTF-8; a state command of a registered client
    /// needs three bytes of valid UTF-8 after the letter, and a move its two
    /// coordinates.
    pub open spec fn readable(self, token: usize, data: Seq<u8>) -> bool {
        &&& data.len() >= 1
        &&& data[0] == REGISTER_COMMAND ==> data.len() >= 2
        &&& self.registers(data) ==> valid_utf8(data.subrange(2, data.len() as int))
        &&& (data[0] != REGISTER_COMMAND && self.tokens.contains_key(token) && data[0]
            == STATE_COMMAND) ==> {
            &&& data.len() >= 4
            &&& valid_utf8(data.subrange(1, 4))
            &&& data.subrange(1, 4) == pos_bytes() ==> data.len() >= 6
        }
    }

    /// The state after, and the answer to, message `data` from `token`.
    pub open spec fn handled(self, token: usize, data: Seq<u8>) -> (
        ShowModel,
        Result<ShowAction, ShowRefusal>,
    ) {
        if data[0] == REGISTER_COMMAND {
            let role = data[1];
            if role > MAX_ROLE {
                (self, Err(ShowRefusal::UnknownRole))
            } else if self.puppeteers.contains_key(role) {
                (self, Err(ShowRefusal::RoleTaken))
            } else {
                let puppet = PuppetView {
                    connected: true,
                    position: start_position(role),
                    name: decode_utf8(data.subrange(2, data.len() as int)),
                    action: false,
                };
                (
                    ShowModel {
                        tokens: self.tokens.insert(token, role),
                        puppeteers: self.puppeteers.insert(role, token),
                        puppets: self.puppets.insert(role, puppet),
                    },
                    Ok(ShowAction::Registered),
                )
            }
        } else if !self.tokens.contains_key(token) {
            (self, Err(ShowRefusal::Disconnected))
        } else if data[0] == STATE_COMMAND {
            if data.subrange(1, 4) == pos_bytes() {
                let role = self.tokens[token];
                let puppet = self.puppets[role];
                let moved = PuppetView { position: seq![data[4], data[5]], ..puppet };
                (ShowModel { puppets: self.puppets.insert(role, moved), ..self }, Ok(ShowAction::Moved))
            } else {
                (self, Ok(ShowAction::Ignored))
            }
        } else {
            (self, Err(ShowRefusal::UnknownCommand))
        }
    }

    /// The state after connection `token` closed: it, its role and its puppet
    /// are gone.
    pub open spec fn closed(self, token: usize) -> ShowModel {
        if self.tokens.contains_key(token) {
            let role = self.tokens[token];
            ShowModel {
                tokens: self.tokens.remove(token),
                puppeteers: self.puppeteers.remove(role),
                puppets: self.puppets.remove(role),
            }
        } else {
            self
        }
    }
}


impl ShowState {
    /// No client and no puppet.
    pub fn new() -> (s: ShowState)
        ensures
            s@.tokens == Map::<usize, u8>::empty(),
            s@.puppeteers == Map::<u8, usize>::empty(),
            s@.puppets == Map::<u8, PuppetView>::empty(),
            s@.consistent(),
    {
        let s = ShowState { tokens: HashMap::new(), puppeteers: HashMap::new(), pup_state: HashMap::new() };
        assert(s@.puppets =~= Map::<u8, PuppetView>::empty());
        s
    }

    /// The puppets of the show, by role.
    pub fn puppets(&self) -> (p: &HashMap<u8, Puppet>)
        ensures
            p@.map_values(|q: Puppet| q@) == self@.puppets,
    {
        &self.pup_state
    }

    /// Whether the show server can read message `data` from connection `token`.
    pub fn is_readable(&self, token: usize, data: &[u8]) -> (r: bool)
        ensures
            r == self@.readable(token, data@),
            self@.tokens.contains_key(token) && data@.len() >= 4 && data@[0] == 83u8 && data@[1]
                == 80u8 && data@[2] == 79u8 && data@[3] == 83u8 ==> (r <==> data@.len() >= 6),
    {
        proof {
            if self@.tokens.contains_key(token) && data@.len() >= 4 && data@[0] == 83u8 && data@[1]
                == 80u8 && data@[2] == 79u8 && data@[3] == 83u8 {
                lemma_position_update_readable(self@, token, data@);
            }
        }
        if data.len() == 0 {
            return false;
        }
        if data[0] == REGISTER_COMMAND {
            if data.len() < 2 {
                return false;
            }
            if data[1] <= MAX_ROLE && !self.puppeteers.contains_key(&data[1]) {
                return crate::text::str_from_utf8(&data[2..data.len()]).is_some();
            }
            return true;
        }
        if data[0] == STATE_COMMAND && self.tokens.contains_key(&token) {
            if data.len() < 4 || crate::text::str_from_utf8(&data[1..4]).is_none() {
                return false;
            }
            if data[1] == 80 && data[2] == 79 && data[3] == 83 {
                assert(data@.subrange(1, 4) =~= pos_bytes());
                return data.len() >= 6;
            }
            assert(data@.subrange(1, 4) != pos_bytes()) by {
                assert(data@.subrange(1, 4)[0] == data@[1]);
                assert(data@.subrange(1, 4)[1] == data@[2]);
                assert(data@.subrange(1, 4)[2] == data@[3]);
            }
        }
        true
    }

    /// Handle message `data` from connection `token`.
    pub fn handle_message(&mut self, token: usize, data: &[u8]) -> (r: Result<ShowAction, SoftError>)
        requires
            old(self)@.consistent(),
            old(self)@.readable(token, data@),
        ensures
            final(self)@ == old(self)@.handled(token, data@).0,
            final(self)@.consistent(),
            match old(self)@.handled(token, data@).1 {
                Ok(action) => r == Ok::<ShowAction, SoftError>(action),
                Err(refusal) => r matches Err(e) && e.message@ == refusal_text(refusal),
            },
    {
        let ghost before = self@;
        if data[0] == REGISTER_COMMAND {
            let role = data[1];
            if role > MAX_ROLE {
                return Err(refusal_error(ShowRefusal::UnknownRole));
            }
            if self.puppeteers.contains_key(&role) {
                return Err(refusal_error(ShowRefusal::RoleTaken));
            }
            let name = match crate::text::str_from_utf8(&data[2..data.len()]) {
                Some(text) => text.to_owned(),
                None => {
                    return Err(refusal_error(ShowRefusal::UnknownRole));
                },
            };
            let position = if role == 1 {
                vec![105u8, 105u8]
            } else if role == 2 {
                vec![180u8, 105u8]
            } else {
                vec![0u8, 0u8]
            };
            assert(position@ =~= start_position(role));
            let puppet = Puppet { connected: true, position, name, action: false };
            self.tokens.insert(token, role);
            self.puppeteers.insert(role, token);
            self.pup_state.insert(role, puppet);
            proof {
                let next = before.handled(token, data@).0;
                assert(self@.puppets =~= next.puppets);
                assert forall|t: usize| #[trigger] next.tokens.contains_key(t) implies {
                    &&& next.puppeteers.contains_key(next.tokens[t])
                    &&& next.puppeteers[next.tokens[t]] == t
                    &&& next.puppets.contains_key(next.tokens[t])
                    &&& next.puppets[next.tokens[t]].position.len() == 2
                } by {
                    if t != token {
                        assert(before.tokens.contains_key(t));
                    }
                }
            }
            return Ok(ShowAction::Registered);
        }
        let role = match self.tokens.get(&token) {
            Some(role) => *role,
            None => {
                return Err(refusal_error(ShowRefusal::Disconnected));
            },
        };
        if data[0] != STATE_COMMAND {
            return Err(refusal_error(ShowRefusal::UnknownCommand));
        }
        if !(data[1] == 80 && data[2] == 79 && data[3] == 83) {
            assert(data@.subrange(1, 4) != pos_bytes()) by {
                assert(data@.subrange(1, 4)[0] == data@[1]);
                assert(data@.subrange(1, 4)[1] == data@[2]);
                assert(data@.subrange(1, 4)[2] == data@[3]);
            }
            return Ok(ShowAction::Ignored);
        }
        assert(data@.subrange(1, 4) =~= pos_bytes());
        match self.pup_state.remove(&role) {
            Some(mut puppet) => {
                puppet.position.set(0, data[4]);
                puppet.position.set(1, data[5]);
                self.pup_state.insert(role, puppet);
            },
            None => {},
        }
        proof {
            let next = before.handled(token, data@).0;
            assert(self@.puppets[role].position =~= seq![data@[4], data@[5]]);
            assert(self@.puppets =~= next.puppets);
            assert forall|t: usize| #[trigger] next.tokens.contains_key(t) implies {
                &&& next.puppeteers.contains_key(next.tokens[t])
                &&& next.puppeteers[next.tokens[t]] == t
                &&& next.puppets.contains_key(next.tokens[t])
                &&& next.puppets[next.tokens[t]].position.len() == 2
            } by {
                assert(before.tokens.contains_key(t));
            }
        }
        Ok(ShowAction::Moved)
    }

    /// Connection `token` closed: free it, its role and its puppet.
    pub fn disconnect(&mut self, token: usize)
        requires
            old(self)@.consistent(),
        ensures
            final(self)@ == old(self)@.closed(token),
            final(self)@.consistent(),
    {
        let ghost before = self@;
        match self.tokens.remove(&token) {
            Some(role) => {
                self.puppeteers.remove(&role);
                self.pup_state.remove(&role);
                proof {
                    let next = before.closed(token);
                    assert(self@.tokens == next.tokens);
                    assert(self@.puppets =~= next.puppets);
                    assert forall|t: usize| #[trigger] next.tokens.contains_key(t) implies {
                        &&& next.puppeteers.contains_key(next.tokens[t])
                        &&& next.puppeteers[next.tokens[t]] == t
                        &&& next.puppets.contains_key(next.tokens[t])
                        &&& next.puppets[next.tokens[t]].position.len() == 2
                    } by {
                        assert(before.tokens.contains_key(t));
                        assert(before.puppeteers[before.tokens[token]] == token);
                    }
                }
            },
            None => {
                assert(self@.tokens =~= before.tokens);
                assert(self@.puppets =~= before.puppets);
            },
        }
    }
}


/// Closing a connection undoes its registration: a fresh connection that
/// registers for a free role and then closes leaves the show as it was,
/// puppets included.
pub proof fn lemma_close_undoes_registration(m: ShowModel, token: usize, data: Seq<u8>)
    requires
        m.consistent(),
        m.readable(token, data),
        m.registers(data),
        !m.tokens.contains_key(token),
    ensures
        m.handled(token, data).1 == Ok::<ShowAction, ShowRefusal>(ShowAction::Registered),
        m.handled(token, data).0.closed(token) == m,
{
    let next = m.handled(token, data).0;
    assert(next.closed(token).tokens =~= m.tokens);
    assert(next.closed(token).puppeteers =~= m.puppeteers);
    assert(next.closed(token).puppets =~= m.puppets);
}

/// A client moves its own puppet only: a position update sets the two
/// coordinates of the puppet of the sender's role, and every other puppet,
/// and the registry, stay as they were.
pub proof fn lemma_move_touches_only_own_puppet(m: ShowModel, token: usize, data: Seq<u8>, role: u8)
    requires
        m.consistent(),
        m.readable(token, data),
        data[0] == STATE_COMMAND,
        m.tokens.contains_key(token),
        data.subrange(1, 4) == pos_bytes(),
    ensures
        ({
            let next = m.handled(token, data).0;
            &&& m.handled(token, data).1 == Ok::<ShowAction, ShowRefusal>(ShowAction::Moved)
            &&& next.tokens == m.tokens
            &&& next.puppeteers == m.puppeteers
            &&& next.puppets.dom() == m.puppets.dom()
            &&& next.puppets[m.tokens[token]].position == seq![data[4], data[5]]
            &&& next.puppets[m.tokens[token]].name == m.puppets[m.tokens[token]].name
            &&& (role != m.tokens[token] ==> next.puppets[role] == m.puppets[role])
        }),
{
    let next = m.handled(token, data).0;
    assert(next.puppets.dom() =~= m.puppets.dom());
}

/// A registered client's position update `S` `P` `O` `S` is read exactly when
/// it carries its two coordinates: a six-byte update is read, a shorter one is
/// not.
pub proof fn lemma_position_update_readable(m: ShowModel, token: usize, data: Seq<u8>)
    requires
        m.tokens.contains_key(token),
        data.len() >= 4,
        data[0] == 83u8,
        data[1] == 80u8,
        data[2] == 79u8,
        data[3] == 83u8,
    ensures
        m.readable(token, data) <==> data.len() >= 6,
{
    reveal_with_fuel(valid_utf8, 4);
    assert(data.subrange(1, 4) =~= seq![80u8, 79u8, 83u8]);
}

/// A registered client moves its puppet with `S` `P` `O` `S` and the two
/// coordinates: the message is read, accepted as a move, and the puppet of
/// the client's role stands at the given coordinates afterwards.
pub proof fn lemma_position_update_moves(m: ShowModel, token: usize, x: u8, y: u8)
    requires
        m.consistent(),
        m.tokens.contains_key(token),
    ensures
        m.readable(token, seq![83u8, 80u8, 79u8, 83u8, x, y]),
        m.handled(token, seq![83u8, 80u8, 79u8, 83u8, x, y]).1 == Ok::<ShowAction, ShowRefusal>(
            ShowAction::Moved,
        ),
        m.handled(token, seq![83u8, 80u8, 79u8, 83u8, x, y]).0.puppets[m.tokens[token]].position
            == seq![x, y],
{
    let data = seq![83u8, 80u8, 79u8, 83u8, x, y];
    lemma_position_update_readable(m, token, data);
    assert(data.subrange(1, 4) =~= pos_bytes());
}

} // verus!
