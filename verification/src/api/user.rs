//! The `/user/{id}` route: which ids are looked up and what is answered.

use vstd::prelude::*;
use crate::api::types::ResponseData;
use crate::api::utils::{ok_or_status, StatusCode};
use crate::discord::{Presence, User};
use crate::outside::{regex_is_match, regex_outcome};

verus! {

/// A Discord id: a snowflake of 17 to 19 digits.
pub const DISCORD_ID_PATTERN: &'static str = "^\\d{17,19}$";

pub const INVALID_ID_MSG: &'static str = "Invalid ID";

pub const USER_NOT_FOUND_MSG: &'static str = "User not found";

pub const USER_LOOKUP_FAILED_MSG: &'static str = "Failed to get user";

pub const PRESENCE_NOT_FOUND_MSG: &'static str = "Presence not found";

pub const PRESENCE_LOOKUP_FAILED_MSG: &'static str = "Failed to get presence";

/// The body of a successful answer.
#[derive(Debug, Clone)]
pub struct UserResponse {
    pub success: bool,
    pub data: ResponseData,
}

impl UserResponse {
    /// The successful answer about `user` with `presence`.
    pub fn build(user: User, presence: Presence) -> (r: UserResponse)
        ensures
            r.success,
            r.data.summarizes(user, presence),
    {
        UserResponse { success: true, data: ResponseData::build(user, presence) }
    }
}

/// Whether `id` has the shape of a Discord id, as the regex engine says.
pub open spec fn id_matches(id: Seq<char>) -> bool {
    regex_outcome(DISCORD_ID_PATTERN@, id) == Some(true)
}

/// An id is accepted exactly when the regex engine says that it matches
/// `^\d{17,19}$`, a snowflake of 17 to 19 digits.
pub proof fn lemma_id_check_pattern(id: Seq<char>)
    ensures
        id_matches(id) == (regex_outcome("^\\d{17,19}$"@, id) == Some(true)),
{
    assert(DISCORD_ID_PATTERN@ == "^\\d{17,19}$"@);
}

/// The answer to an id, once it is known whether it has the right shape:
/// nothing to object to, or "400 Invalid ID".
pub fn id_verdict(matches: bool) -> (r: Result<(), (StatusCode, String)>)
    ensures
        matches ==> r is Ok,
        !matches ==> (r matches Err(e) && e.0 == StatusCode::BadRequest && e.1@ == INVALID_ID_MSG@),
{
    if matches {
        Ok(())
    } else {
        Err((StatusCode::BadRequest, INVALID_ID_MSG.to_string()))
    }
}

/// Rejects an id that does not have the shape of a Discord id.
pub fn validate_user_id(id: &str) -> (r: Result<(), (StatusCode, String)>)
    ensures
        r is Ok <==> id_matches(id@),
        r matches Err(e) ==> e.0 == StatusCode::BadRequest && e.1@ == INVALID_ID_MSG@,
{
    let matches = match regex_is_match(DISCORD_ID_PATTERN, id) {
        Some(b) => b,
        None => false,
    };
    id_verdict(matches)
}

/// The user that the lookup found, or the answer to give instead.
pub fn user_or_status<E>(result: Result<Option<User>, E>) -> (r: Result<User, (StatusCode, String)>)
    ensures
        match result {
            Ok(Some(u)) => r == Ok::<User, (StatusCode, String)>(u),
            Ok(None) => r matches Err(e) && e.0 == StatusCode::NotFound && e.1@
                == USER_NOT_FOUND_MSG@,
            Err(_) => r matches Err(e) && e.0 == StatusCode::InternalServerError && e.1@
                == USER_LOOKUP_FAILED_MSG@,
        },
{
    ok_or_status(result, USER_NOT_FOUND_MSG, USER_LOOKUP_FAILED_MSG)
}

/// The presence that the lookup found, or the answer to give instead.
pub fn presence_or_status<E>(result: Result<Option<Presence>, E>) -> (r: Result<
    Presence,
    (StatusCode, String),
>)
    ensures
        match result {
            Ok(Some(p)) => r == Ok::<Presence, (StatusCode, String)>(p),
            Ok(None) => r matches Err(e) && e.0 == StatusCode::NotFound && e.1@
                == PRESENCE_NOT_FOUND_MSG@,
            Err(_) => r matches Err(e) && e.0 == StatusCode::InternalServerError && e.1@
                == PRESENCE_LOOKUP_FAILED_MSG@,
        },
{
    ok_or_status(result, PRESENCE_NOT_FOUND_MSG, PRESENCE_LOOKUP_FAILED_MSG)
}

} // verus!
