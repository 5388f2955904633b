//! Dispatch event names that the relay reacts to.

use vstd::prelude::*;

verus! {

pub const READY: &'static str = "READY";

pub const GUILD_CREATE: &'static str = "GUILD_CREATE";

pub const PRESENCE_UPDATE: &'static str = "PRESENCE_UPDATE";

} // verus!
