//! The gateway client's decisions: what each gateway message calls for,
//! which sequence number the heartbeats carry, what the client identifies
//! itself with, and which guild events concern the configured guild.

use vstd::prelude::*;
use crate::config::AppConfig;
use crate::discord::event_type;
use crate::discord::types::{Opcode, opcode_number, Presence, User};
use crate::text::str_eq;

verus! {

/// GUILDS | GUILD_MEMBERS | GUILD_PRESENCES.
pub const IDENTIFY_INTENTS: u32 = 259;

pub const IDENTIFY_OS: &'static str = "linux";

pub const IDENTIFY_BROWSER: &'static str = "lanyarrs";

pub const IDENTIFY_DEVICE: &'static str = "lanyarrs";

/// A decoded gateway message, less its payload: the opcode as it came on
/// the wire, the event name and the sequence number.
#[derive(Debug, Clone)]
pub struct GatewayMessage {
    pub op: i64,
    pub t: Option<String>,
    pub s: Option<i64>,
}

/// What a gateway message calls for.
#[derive(Debug, Clone, Copy, PartialEq, Eq, Structural)]
pub enum ClientAction {
    /// The opcode is unknown: the message cannot be decoded.
    Malformed,
    /// Identify, then start heartbeating at the interval in the payload.
    Hello,
    /// The gateway acknowledged a heartbeat.
    HeartbeatAck,
    /// The session is ready.
    Ready,
    /// A guild became available, with its members and presences.
    GuildCreate,
    /// A member's presence changed.
    PresenceUpdate,
    /// Nothing that the relay handles.
    Unhandled,
}

/// Whether the optional event name is `name`.
pub open spec fn names(t: Option<String>, name: Seq<char>) -> bool {
    t matches Some(s) && s@ == name
}

/// The action for a message with a known opcode: the opcode decides first,
/// then the event name.
pub open spec fn action_for(op: Opcode, t: Option<String>) -> ClientAction {
    if op == Opcode::Hello {
        ClientAction::Hello
    } else if op == Opcode::HeartbeatAck {
        ClientAction::HeartbeatAck
    } else if names(t, event_type::READY@) {
        ClientAction::Ready
    } else if names(t, event_type::GUILD_CREATE@) {
        ClientAction::GuildCreate
    } else if names(t, event_type::PRESENCE_UPDATE@) {
        ClientAction::PresenceUpdate
    } else {
        ClientAction::Unhandled
    }
}

/// A known opcode's action; `Malformed` for an unknown one.
pub open spec fn message_action(msg: GatewayMessage) -> ClientAction {
    if exists|op: Opcode| opcode_number(op) == msg.op {
        action_for(choose|op: Opcode| opcode_number(op) == msg.op, msg.t)
    } else {
        ClientAction::Malformed
    }
}

/// Whether a message with this opcode can be decoded at all.
pub open spec fn decodable(msg: GatewayMessage) -> bool {
    exists|op: Opcode| opcode_number(op) == msg.op
}

/// How the client introduces itself to the gateway.
#[derive(Debug, Clone)]
pub struct IdentifyProperties {
    pub os: &'static str,
    pub browser: &'static str,
    pub device: &'static str,
}

#[derive(Debug, Clone)]
pub struct IdentifyData {
    pub token: String,
    pub intents: u32,
    pub properties: IdentifyProperties,
}

/// The payload of a hello message.
#[derive(Debug, Clone, Copy)]
pub struct HelloData {
    pub heartbeat_interval: u64,
}

#[derive(Debug, Clone)]
pub struct GuildMember {
    pub user: User,
}

/// The payload of a guild create event.
#[derive(Debug, Clone)]
pub struct GuildCreateData {
    pub id: String,
    pub members: Vec<GuildMember>,
    pub presences: Vec<Presence>,
}

/// The users of a list of guild members, in order.
pub open spec fn users_of(members: Seq<GuildMember>) -> Seq<User> {
    members.map_values(|m: GuildMember| m.user)
}

/// The gateway client's state: its settings and the last sequence number
/// that the gateway sent.
pub struct Client {
    config: AppConfig,
    sequence: Option<i64>,
}

impl Client {
    pub closed spec fn config_of(&self) -> AppConfig {
        self.config
    }

    /// The last sequence number received, if any.
    pub closed spec fn last_sequence(&self) -> Option<i64> {
        self.sequence
    }

    /// The guild that the relay watches.
    pub open spec fn guild_id(&self) -> Seq<char> {
        self.config_of().discord.guild_id@
    }

    pub fn new(config: AppConfig) -> (r: Self)
        ensures
            r.config_of() == config,
            r.last_sequence() is None,
    {
        Self { config, sequence: None }
    }

    pub fn config(&self) -> (r: &AppConfig)
        ensures
            *r == self.config_of(),
    {
        &self.config
    }

    /// What the message calls for. A decodable message that carries a
    /// sequence number makes it the last one received.
    pub fn handle_message(&mut self, msg: &GatewayMessage) -> (r: ClientAction)
        ensures
            r == message_action(*msg),
            final(self).config_of() == old(self).config_of(),
            final(self).last_sequence() == (if decodable(*msg) && msg.s is Some {
                msg.s
            } else {
                old(self).last_sequence()
            }),
    {
        let op = match Opcode::from_code(msg.op) {
            Some(op) => op,
            None => return ClientAction::Malformed,
        };
        if let Some(seq) = msg.s {
            self.sequence = Some(seq);
        }
        proof {
            assert(opcode_number(op) == msg.op);
            assert(decodable(*msg));
            lemma_choose_opcode(op, msg.op);
        }
        if op == Opcode::Hello {
            ClientAction::Hello
        } else if op == Opcode::HeartbeatAck {
            ClientAction::HeartbeatAck
        } else if names_event(&msg.t, event_type::READY) {
            ClientAction::Ready
        } else if names_event(&msg.t, event_type::GUILD_CREATE) {
            ClientAction::GuildCreate
        } else if names_event(&msg.t, event_type::PRESENCE_UPDATE) {
            ClientAction::PresenceUpdate
        } else {
            ClientAction::Unhandled
        }
    }

    /// The payload of a heartbeat: the last sequence number received.
    pub fn heartbeat_payload(&self) -> (r: Option<i64>)
        ensures
            r == self.last_sequence(),
    {
        self.sequence
    }

    /// What the client identifies itself with.
    pub fn identify_data(&self) -> (r: IdentifyData)
        ensures
            r.token@ == self.config_of().discord.bot_token@,
            r.intents == IDENTIFY_INTENTS,
            r.properties.os@ == IDENTIFY_OS@,
            r.properties.browser@ == IDENTIFY_BROWSER@,
            r.properties.device@ == IDENTIFY_DEVICE@,
    {
        IdentifyData {
            token: self.config.discord.bot_token.clone(),
            intents: IDENTIFY_INTENTS,
            properties: IdentifyProperties {
                os: IDENTIFY_OS,
                browser: IDENTIFY_BROWSER,
                device: IDENTIFY_DEVICE,
            },
        }
    }

    /// The users of a guild create event, when the guild is the one that
    /// the relay watches.
    pub fn guild_users(&self, guild: GuildCreateData) -> (r: Option<Vec<User>>)
        ensures
            guild.id@ != self.guild_id() ==> r is None,
            guild.id@ == self.guild_id() ==> (r matches Some(users) && users@ == users_of(
                guild.members@,
            )),
    {
        if !str_eq(guild.id.as_str(), self.config.discord.guild_id.as_str()) {
            return None;
        }
        let ghost all = guild.members@;
        let mut users: Vec<User> = Vec::new();
        for member in it: guild.members.into_iter()
            invariant
                it.seq() == all,
                users@ == users_of(all.take(it.index() as int)),
        {
            proof {
                assert(all.take(it.index() + 1) =~= all.take(it.index() as int).push(member));
            }
            users.push(member.user);
            proof {
                assert(users_of(all.take(it.index() + 1)) =~= users_of(all.take(it.index() as int)).push(
                    member.user,
                ));
            }
        }
        assert(all.take(all.len() as int) =~= all);
        Some(users)
    }

    /// Whether a presence update is about the guild that the relay watches.
    pub fn accepts_presence(&self, presence: &Presence) -> (r: bool)
        ensures
            r == (presence.guild_id matches Some(g) && g@ == self.guild_id()),
    {
        match &presence.guild_id {
            Some(g) => str_eq(g.as_str(), self.config.discord.guild_id.as_str()),
            None => false,
        }
    }

    /// The heartbeat period that a hello asks for; none when it is zero.
    pub fn heartbeat_period(hello: &HelloData) -> (r: Option<u64>)
        ensures
            hello.heartbeat_interval == 0 ==> r is None,
            hello.heartbeat_interval != 0 ==> r == Some(hello.heartbeat_interval),
    {
        if hello.heartbeat_interval == 0 {
            None
        } else {
            Some(hello.heartbeat_interval)
        }
    }
}

fn names_event(t: &Option<String>, name: &str) -> (r: bool)
    ensures
        r == names(*t, name@),
{
    match t {
        Some(s) => str_eq(s.as_str(), name),
        None => false,
    }
}

proof fn lemma_choose_opcode(op: Opcode, code: i64)
    requires
        opcode_number(op) == code,
    ensures
        (choose|o: Opcode| opcode_number(o) == code) == op,
{
    let c = choose|o: Opcode| opcode_number(o) == code;
    assert(opcode_number(c) == code);
    assert(c == op) by {
        match c {
            Opcode::Dispatch => {},
            Opcode::Heartbeat => {},
            Opcode::Identify => {},
            Opcode::PresenceUpdate => {},
            Opcode::Hello => {},
            Opcode::HeartbeatAck => {},
        }
    }
}

} // verus!
