//! What the relay takes from outside crates: each item here is believed,
//! not proved, and its doc comment says what it claims.

use vstd::prelude::*;
use redis::Client as RedisClient;
use redis::aio::ConnectionManager;

verus! {

/// The outcome of compiling `pattern` with `regex::Regex::new` and running
/// `is_match` on `haystack`: `None` when the pattern does not compile, else
/// whether the pattern matches somewhere in the haystack.
pub uninterp spec fn regex_outcome(pattern: Seq<char>, haystack: Seq<char>) -> Option<bool>;

/// Calls `regex::Regex::new(pattern)` and, when it compiles, `Regex::is_match`
/// on `haystack`. Claimed: the result is `regex_outcome` of the two strings,
/// so it depends on them alone. Nothing is claimed about which strings match.
#[verifier::external_body]
pub(crate) fn regex_is_match(pattern: &str, haystack: &str) -> (r: Option<bool>)
    ensures
        r == regex_outcome(pattern@, haystack@),
{
    match regex::Regex::new(pattern) {
        Ok(re) => Some(re.is_match(haystack)),
        Err(_) => None,
    }
}

/// Whether garde's `url` rule accepts `value` (it parses the value with the
/// `url` crate).
pub uninterp spec fn url_rule_accepts(value: Seq<char>) -> bool;

/// Calls `garde::rules::url::apply` on `value`. Claimed: the result is
/// `url_rule_accepts` of the value's characters; nothing is claimed about
/// which strings are URLs.
#[verifier::external_body]
pub(crate) fn url_rule_holds(value: &String) -> (r: bool)
    ensures
        r == url_rule_accepts(value@),
{
    garde::rules::url::apply(value, ()).is_ok()
}

/// The redis client handle, carried through the library unopened.
#[verifier::external_type_specification]
#[verifier::external_body]
pub struct ExRedisClient(RedisClient);

/// The multiplexed redis connection, carried through the library unopened.
#[verifier::external_type_specification]
#[verifier::external_body]
pub struct ExRedisConnectionManager(ConnectionManager);

/// `redis::Client::clone`, derived by redis: a second handle to the same
/// server. Nothing is claimed about the copy.
pub assume_specification[ <RedisClient as std::clone::Clone>::clone ](c: &RedisClient) -> RedisClient;

/// `ConnectionManager::clone`, derived by redis: another handle on the same
/// shared connection. Nothing is claimed about the copy.
pub assume_specification[ <ConnectionManager as std::clone::Clone>::clone ](
    c: &ConnectionManager,
) -> ConnectionManager;

} // verus!
