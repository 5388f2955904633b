//! Presence relay for a Discord guild: the data model of the gateway, the
//! decisions of the gateway client and of the public websocket, the HTTP
//! response shaping, the storage key layout and the configuration checks.

pub mod api;
pub mod config;
pub mod discord;
pub mod outside;
pub mod storage;
pub mod text;
