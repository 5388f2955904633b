//! Small decisions shared by the HTTP handlers.

use vstd::prelude::*;
use crate::text::str_eq;

verus! {

/// The HTTP statuses that the handlers answer with, besides success.
#[derive(Debug, Clone, Copy, PartialEq, Eq, Structural)]
pub enum StatusCode {
    BadRequest,
    NotFound,
    InternalServerError,
}

pub open spec fn status_number(s: StatusCode) -> int {
    match s {
        StatusCode::BadRequest => 400,
        StatusCode::NotFound => 404,
        StatusCode::InternalServerError => 500,
    }
}

impl StatusCode {
    pub fn as_u16(&self) -> (r: u16)
        ensures
            r == status_number(*self),
    {
        match self {
            StatusCode::BadRequest => 400,
            StatusCode::NotFound => 404,
            StatusCode::InternalServerError => 500,
        }
    }
}

/// A stored value that was looked up: the value when it is there, "not
/// found" when it is missing, "internal error" when the lookup failed.
pub fn ok_or_status<T, E>(result: Result<Option<T>, E>, not_found_msg: &str, err_msg: &str) -> (r:
    Result<T, (StatusCode, String)>)
    ensures
        match result {
            Ok(Some(v)) => r == Ok::<T, (StatusCode, String)>(v),
            Ok(None) => r matches Err(e) && e.0 == StatusCode::NotFound && e.1@ == not_found_msg@,
            Err(_) => r matches Err(e) && e.0 == StatusCode::InternalServerError && e.1@
                == err_msg@,
        },
{
    match result {
        Ok(Some(val)) => Ok(val),
        Ok(None) => Err((StatusCode::NotFound, not_found_msg.to_string())),
        Err(_) => Err((StatusCode::InternalServerError, err_msg.to_string())),
    }
}

/// The value of a lookup that found one; nothing when it was missing or
/// when the lookup failed.
pub fn found<T, E>(result: Result<Option<T>, E>) -> (r: Option<T>)
    ensures
        match result {
            Ok(Some(v)) => r == Some(v),
            _ => r is None,
        },
{
    match result {
        Ok(Some(val)) => Some(val),
        _ => None,
    }
}

/// A platform is active unless its status is absent or "offline".
pub open spec fn active(status: Option<Seq<char>>) -> bool {
    match status {
        Some(s) => s != "offline"@,
        None => false,
    }
}

pub fn is_active(status: Option<&str>) -> (r: bool)
    ensures
        r == active(
            match status {
                Some(s) => Some(s@),
                None => None,
            },
        ),
{
    match status {
        None => false,
        Some(s) => !str_eq(s, "offline"),
    }
}

/// A platform status as an optional view.
pub open spec fn status_view(status: Option<String>) -> Option<Seq<char>> {
    match status {
        Some(s) => Some(s@),
        None => None,
    }
}

/// Whether the platform status stored in `status` is active.
pub fn is_active_status(status: &Option<String>) -> (r: bool)
    ensures
        r == active(status_view(*status)),
{
    match status {
        Some(s) => is_active(Some(s.as_str())),
        None => is_active(None),
    }
}

} // verus!
