//! The Discord gateway's data model, as the relay reads and stores it.

use vstd::prelude::*;

verus! {

/// Gateway opcodes that the relay sends or receives.
#[derive(Debug, Clone, Copy, PartialEq, Eq, Structural)]
pub enum Opcode {
    Dispatch,
    Heartbeat,
    Identify,
    PresenceUpdate,
    Hello,
    HeartbeatAck,
}

/// The number that stands for each opcode on the wire.
pub open spec fn opcode_number(op: Opcode) -> int {
    match op {
        Opcode::Dispatch => 0,
        Opcode::Heartbeat => 1,
        Opcode::Identify => 2,
        Opcode::PresenceUpdate => 3,
        Opcode::Hello => 10,
        Opcode::HeartbeatAck => 11,
    }
}

impl Opcode {
    /// The wire number of this opcode.
    pub fn code(&self) -> (r: i32)
        ensures
            r == opcode_number(*self),
    {
        match self {
            Opcode::Dispatch => 0,
            Opcode::Heartbeat => 1,
            Opcode::Identify => 2,
            Opcode::PresenceUpdate => 3,
            Opcode::Hello => 10,
            Opcode::HeartbeatAck => 11,
        }
    }

    /// The opcode with wire number `code`, if there is one.
    pub fn from_code(code: i64) -> (r: Option<Opcode>)
        ensures
            match r {
                Some(op) => opcode_number(op) == code,
                None => forall|op: Opcode| opcode_number(op) != code,
            },
    {
        if code == 0 {
            Some(Opcode::Dispatch)
        } else if code == 1 {
            Some(Opcode::Heartbeat)
        } else if code == 2 {
            Some(Opcode::Identify)
        } else if code == 3 {
            Some(Opcode::PresenceUpdate)
        } else if code == 10 {
            Some(Opcode::Hello)
        } else if code == 11 {
            Some(Opcode::HeartbeatAck)
        } else {
            assert forall|op: Opcode| opcode_number(op) != code by {
                match op {
                    Opcode::Dispatch => {},
                    Opcode::Heartbeat => {},
                    Opcode::Identify => {},
                    Opcode::PresenceUpdate => {},
                    Opcode::Hello => {},
                    Opcode::HeartbeatAck => {},
                }
            }
            None
        }
    }
}

/// Distinct opcodes have distinct wire numbers, so reading an opcode's own
/// number back gives that opcode.
pub proof fn lemma_opcode_numbers_round_trip(op: Opcode, other: Opcode)
    ensures
        opcode_number(op) == opcode_number(other) ==> op == other,
{
}

#[derive(Debug, Clone)]
pub struct PrimaryGuild {
    pub identity_guild_id: Option<String>,
    pub identity_enabled: Option<bool>,
    pub tag: Option<String>,
    pub badge: Option<String>,
}

#[derive(Debug, Clone)]
pub struct AvatarDecorationData {
    pub asset: String,
    pub sku_id: String,
    pub expires_at: Option<i64>,
}

#[derive(Debug, Clone)]
pub struct Nameplate {
    pub sku_id: String,
    pub asset: String,
    pub label: String,
    pub palette: String,
    pub expired_at: Option<i64>,
}

#[derive(Debug, Clone)]
pub struct Collectibles {
    pub nameplate: Option<Nameplate>,
}

#[derive(Debug, Clone)]
pub struct DisplayNameStyles {
    pub colors: Vec<i32>,
    pub effect_id: String,
    pub font_id: String,
}

/// A Discord user. `discriminator` is "0" for every account but bots.
#[derive(Debug, Clone)]
pub struct User {
    pub id: String,
    pub username: String,
    pub discriminator: String,
    pub global_name: Option<String>,
    pub avatar: Option<String>,
    pub bot: Option<bool>,
    pub public_flags: Option<i64>,
    pub avatar_decoration_data: Option<AvatarDecorationData>,
    pub collectibles: Option<Collectibles>,
    pub primary_guild: Option<PrimaryGuild>,
    pub display_name_styles: Option<DisplayNameStyles>,
}

#[derive(Debug, Clone, Copy, PartialEq, Eq, Structural)]
pub enum ActivityType {
    Playing,
    Streaming,
    Listening,
    Watching,
    Custom,
    Competing,
}

#[derive(Debug, Clone)]
pub struct Timestamps {
    pub start: Option<i64>,
    pub end: Option<i64>,
}

#[derive(Debug, Clone, Copy, PartialEq, Eq, Structural)]
pub enum StatusDisplayType {
    Name,
    Details,
    State,
}

#[derive(Debug, Clone)]
pub struct Emoji {
    pub name: String,
    pub id: Option<String>,
    pub animated: Option<bool>,
}

#[derive(Debug, Clone)]
pub struct Party {
    pub id: Option<String>,
    pub size: Option<(i32, i32)>,
}

#[derive(Debug, Clone)]
pub struct Assets {
    pub large_image: Option<String>,
    pub large_text: Option<String>,
    pub large_url: Option<String>,
    pub small_image: Option<String>,
    pub small_text: Option<String>,
    pub small_url: Option<String>,
    pub invite_cover_image: Option<String>,
}

/// Activity secrets; `match_secret` is the field that the wire calls `match`.
#[derive(Debug, Clone)]
pub struct Secrets {
    pub join: Option<String>,
    pub spectate: Option<String>,
    pub match_secret: Option<String>,
}

#[derive(Debug, Clone)]
pub struct Button {
    pub label: String,
    pub url: String,
}

/// One activity of a presence; `kind` is the field that the wire calls `type`.
#[derive(Debug, Clone)]
pub struct Activity {
    pub name: String,
    pub kind: ActivityType,
    pub url: Option<String>,
    pub created_at: i64,
    pub timestamps: Option<Timestamps>,
    pub status_display_type: Option<StatusDisplayType>,
    pub details: Option<String>,
    pub details_url: Option<String>,
    pub state: Option<String>,
    pub state_url: Option<String>,
    pub emoji: Option<Emoji>,
    pub party: Option<Party>,
    pub assets: Option<Assets>,
    pub secrets: Option<Secrets>,
    pub instance: Option<bool>,
    pub flags: Option<i32>,
    pub buttons: Option<Vec<Button>>,
    pub sync_id: Option<String>,
    pub id: Option<String>,
}

/// The status of each client platform; a platform that is absent is offline.
#[derive(Debug, Clone)]
pub struct ClientStatus {
    pub desktop: Option<String>,
    pub mobile: Option<String>,
    pub web: Option<String>,
    pub embedded: Option<String>,
    pub vr: Option<String>,
}

impl ClientStatus {
    /// Every platform absent.
    pub fn empty() -> (r: ClientStatus)
        ensures
            r.desktop is None,
            r.mobile is None,
            r.web is None,
            r.embedded is None,
            r.vr is None,
    {
        ClientStatus { desktop: None, mobile: None, web: None, embedded: None, vr: None }
    }
}

impl Default for ClientStatus {
    fn default() -> (r: ClientStatus)
        ensures
            r.desktop is None,
            r.mobile is None,
            r.web is None,
            r.embedded is None,
            r.vr is None,
    {
        ClientStatus::empty()
    }
}

#[derive(Debug, Clone)]
pub struct PresenceUser {
    pub id: String,
}

/// A user's presence in a guild.
#[derive(Debug, Clone)]
pub struct Presence {
    pub user: PresenceUser,
    pub guild_id: Option<String>,
    pub status: String,
    pub activities: Vec<Activity>,
    pub client_status: ClientStatus,
}

} // verus!
