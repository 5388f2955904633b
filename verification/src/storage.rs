//! Where the relay keeps users and presences: the redis handles and the
//! key layout. Reading and writing happen in the application around the
//! library; the keys that they use are made here.

use vstd::prelude::*;
use vstd::string::*;
use redis::Client as RedisClient;
use redis::aio::ConnectionManager;

verus! {

/// The redis handles: a client for new subscriptions and a shared
/// connection for commands.
#[derive(Clone)]
pub struct Storage {
    client: RedisClient,
    conn: ConnectionManager,
}

impl Storage {
    pub closed spec fn client_handle(&self) -> RedisClient {
        self.client
    }

    pub closed spec fn connection_handle(&self) -> ConnectionManager {
        self.conn
    }

    /// Storage over an opened client and its connection.
    pub fn from_parts(client: RedisClient, conn: ConnectionManager) -> (r: Storage)
        ensures
            r.client_handle() == client,
            r.connection_handle() == conn,
    {
        Storage { client, conn }
    }

    pub fn client(&self) -> (r: &RedisClient)
        ensures
            *r == self.client_handle(),
    {
        &self.client
    }

    pub fn connection(&self) -> (r: &ConnectionManager)
        ensures
            *r == self.connection_handle(),
    {
        &self.conn
    }
}

/// The key under which the user with id `id` is stored.
pub open spec fn user_key_of(id: Seq<char>) -> Seq<char> {
    "user:"@ + id
}

/// The key under which the presence of the user with id `id` is stored.
pub open spec fn presence_key_of(id: Seq<char>) -> Seq<char> {
    "presence:"@ + id
}

/// The channel on which changes to the user with id `id` are announced.
pub open spec fn updates_channel_of(id: Seq<char>) -> Seq<char> {
    "updates:"@ + id
}

pub fn user_key(id: &str) -> (r: String)
    ensures
        r@ == user_key_of(id@),
{
    let mut key = "user:".to_string();
    key.append(id);
    key
}

pub fn presence_key(id: &str) -> (r: String)
    ensures
        r@ == presence_key_of(id@),
{
    let mut key = "presence:".to_string();
    key.append(id);
    key
}

pub fn updates_channel(id: &str) -> (r: String)
    ensures
        r@ == updates_channel_of(id@),
{
    let mut key = "updates:".to_string();
    key.append(id);
    key
}

/// Users, presences and update channels live in three disjoint key spaces:
/// no user key is a presence key or an update channel, and no presence key
/// is an update channel.
pub proof fn lemma_key_spaces_disjoint(a: Seq<char>, b: Seq<char>)
    ensures
        user_key_of(a) != presence_key_of(b),
        user_key_of(a) != updates_channel_of(b),
        presence_key_of(a) != updates_channel_of(b),
{
    reveal_strlit("user:");
    reveal_strlit("presence:");
    reveal_strlit("updates:");
    assert(user_key_of(a)[0] == 'u');
    assert(presence_key_of(b)[0] == 'p');
    assert(presence_key_of(a)[0] == 'p');
    assert(updates_channel_of(b)[0] == 'u');
    assert(user_key_of(a)[1] == 's');
    assert(updates_channel_of(b)[1] == 'p');
}

/// Each key space holds one key per id: distinct ids get distinct keys.
pub proof fn lemma_keys_injective(a: Seq<char>, b: Seq<char>)
    ensures
        user_key_of(a) == user_key_of(b) ==> a == b,
        presence_key_of(a) == presence_key_of(b) ==> a == b,
        updates_channel_of(a) == updates_channel_of(b) ==> a == b,
{
    reveal_strlit("user:");
    reveal_strlit("presence:");
    reveal_strlit("updates:");
    assert(a =~= user_key_of(a).subrange(5, user_key_of(a).len() as int));
    assert(b =~= user_key_of(b).subrange(5, user_key_of(b).len() as int));
    assert(a =~= presence_key_of(a).subrange(9, presence_key_of(a).len() as int));
    assert(b =~= presence_key_of(b).subrange(9, presence_key_of(b).len() as int));
    assert(a =~= updates_channel_of(a).subrange(8, updates_channel_of(a).len() as int));
    assert(b =~= updates_channel_of(b).subrange(8, updates_channel_of(b).len() as int));
}

} // verus!
