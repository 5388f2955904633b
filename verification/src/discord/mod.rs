pub mod client;
pub mod event_type;
pub mod gateway;
pub mod types;

pub use client::Client;
pub use gateway::Gateway;
pub use types::{
    Activity, ActivityType, Assets, AvatarDecorationData, Button, ClientStatus, Collectibles,
    DisplayNameStyles, Emoji, Nameplate, Opcode, Party, PrimaryGuild, Presence, PresenceUser,
    Secrets, StatusDisplayType, Timestamps, User,
};
