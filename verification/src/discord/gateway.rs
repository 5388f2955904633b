//! The connection to the Discord gateway: when to reconnect, how long to
//! wait first, and what to do with each frame that arrives.

use vstd::prelude::*;
use vstd::arithmetic::power2::{pow2, lemma_pow2_unfold};
use crate::config::AppConfig;
use crate::storage::Storage;

verus! {

/// The gateway endpoint, API version 10 with JSON frames.
pub const SOCKET_URL: &'static str = "wss://gateway.discord.gg/?v=10&encoding=json";

/// The first wait before reconnecting, in milliseconds.
pub const RECONNECT_MIN_MS: u64 = 1000;

/// The longest wait before reconnecting, in milliseconds.
pub const RECONNECT_MAX_MS: u64 = 39000;

/// A connection that lasted this long (in milliseconds) was healthy: the
/// next wait starts again from the shortest.
pub const STABLE_CONNECTION_MS: u64 = 10000;

/// The wait after `c`: twice `c`, but no more than `max`.
pub open spec fn capped_double(c: nat, max: nat) -> nat {
    if 2 * c <= max {
        2 * c
    } else {
        max
    }
}

/// The `k`-th wait (from 0) of a backoff that starts at `min`.
pub open spec fn nth_delay(min: nat, max: nat, k: nat) -> nat
    decreases k,
{
    if k == 0 {
        min
    } else {
        capped_double(nth_delay(min, max, (k - 1) as nat), max)
    }
}

/// The smaller of the two bounds of a backoff.
pub open spec fn lower_bound(min: nat, max: nat) -> nat {
    if min <= max {
        min
    } else {
        max
    }
}

/// The larger of the two bounds of a backoff.
pub open spec fn upper_bound(min: nat, max: nat) -> nat {
    if min <= max {
        max
    } else {
        min
    }
}

/// Exponential backoff between reconnection attempts, in milliseconds.
/// `attempts` counts the waits handed out since the backoff was made or
/// last reset; the wait for the next attempt is `nth_delay` of that count.
pub struct Backoff {
    min: u64,
    max: u64,
    current: u64,
    attempts: Ghost<nat>,
}

impl Backoff {
    #[verifier::type_invariant]
    spec fn wf(self) -> bool {
        self.current as nat == nth_delay(self.min as nat, self.max as nat, self.attempts@)
    }

    pub closed spec fn min_delay(&self) -> nat {
        self.min as nat
    }

    pub closed spec fn max_delay(&self) -> nat {
        self.max as nat
    }

    /// The number of waits handed out since the backoff was made or last
    /// reset.
    pub closed spec fn attempts(&self) -> nat {
        self.attempts@
    }

    /// The wait that the next attempt gets.
    pub closed spec fn current_delay(&self) -> nat {
        self.current as nat
    }

    pub fn new(min: u64, max: u64) -> (r: Backoff)
        ensures
            r.min_delay() == min,
            r.max_delay() == max,
            r.attempts() == 0,
            r.current_delay() == min,
    {
        Backoff { min, max, current: min, attempts: Ghost(0) }
    }

    /// Starts again from the shortest wait.
    pub fn reset(&mut self)
        ensures
            final(self).min_delay() == old(self).min_delay(),
            final(self).max_delay() == old(self).max_delay(),
            final(self).attempts() == 0,
            final(self).current_delay() == old(self).min_delay(),
    {
        *self = Backoff { min: self.min, max: self.max, current: self.min, attempts: Ghost(0) };
    }

    /// The wait for this attempt; the next one waits twice as long, up to
    /// the longest wait. The `k`-th wait since the backoff was made or last
    /// reset is `nth_delay(min, max, k)`, and every wait lies between the
    /// two bounds, whichever of them is the larger.
    pub fn next(&mut self) -> (r: u64)
        ensures
            r == old(self).current_delay(),
            r == nth_delay(old(self).min_delay(), old(self).max_delay(), old(self).attempts()),
            lower_bound(old(self).min_delay(), old(self).max_delay()) <= r <= upper_bound(
                old(self).min_delay(),
                old(self).max_delay(),
            ),
            final(self).min_delay() == old(self).min_delay(),
            final(self).max_delay() == old(self).max_delay(),
            final(self).attempts() == old(self).attempts() + 1,
            final(self).current_delay() == capped_double(
                old(self).current_delay(),
                old(self).max_delay(),
            ),
    {
        proof {
            use_type_invariant(&*self);
            lemma_delays_bounded(self.min as nat, self.max as nat, self.attempts@);
        }
        let d = self.current;
        let ghost k = self.attempts@;
        let following = if self.current <= self.max / 2 {
            self.current * 2
        } else {
            self.max
        };
        *self = Backoff { min: self.min, max: self.max, current: following, attempts: Ghost(k + 1) };
        d
    }

    /// What to do once a connection has ended: `None` to stop, when the
    /// relay is shutting down; else the wait before the next attempt. A
    /// connection that lasted `STABLE_CONNECTION_MS` or more restarts the
    /// waits from the shortest.
    pub fn plan_reconnect(&mut self, cancelled: bool, connected_for_ms: u64) -> (r: Option<u64>)
        ensures
            final(self).min_delay() == old(self).min_delay(),
            final(self).max_delay() == old(self).max_delay(),
            cancelled ==> r is None && final(self).current_delay() == old(self).current_delay()
                && final(self).attempts() == old(self).attempts(),
            !cancelled && connected_for_ms >= STABLE_CONNECTION_MS ==> r == Some(
                old(self).min_delay() as u64,
            ) && final(self).attempts() == 1 && final(self).current_delay() == capped_double(
                old(self).min_delay(),
                old(self).max_delay(),
            ),
            !cancelled && connected_for_ms < STABLE_CONNECTION_MS ==> r == Some(
                old(self).current_delay() as u64,
            ) && final(self).attempts() == old(self).attempts() + 1
                && final(self).current_delay() == capped_double(
                old(self).current_delay(),
                old(self).max_delay(),
            ),
            r matches Some(w) ==> w == nth_delay(
                old(self).min_delay(),
                old(self).max_delay(),
                (final(self).attempts() - 1) as nat,
            ) && lower_bound(old(self).min_delay(), old(self).max_delay()) <= w <= upper_bound(
                old(self).min_delay(),
                old(self).max_delay(),
            ),
    {
        if cancelled {
            return None;
        }
        if connected_for_ms >= STABLE_CONNECTION_MS {
            self.reset();
        }
        Some(self.next())
    }
}

/// The waits of a backoff double from the shortest until they reach the
/// longest, and then stay there: the `k`-th wait is `min * 2^k` or `max`,
/// whichever is smaller, when `min <= max`.
pub proof fn lemma_delays_double_until_cap(min: nat, max: nat, k: nat)
    requires
        min <= max,
    ensures
        nth_delay(min, max, k) == (if min * pow2(k) <= max {
            min * pow2(k)
        } else {
            max
        }),
    decreases k,
{
    if k == 0 {
        vstd::arithmetic::power2::lemma2_to64();
    } else {
        let j = (k - 1) as nat;
        lemma_delays_double_until_cap(min, max, j);
        lemma_pow2_unfold(k);
        assert(min * pow2(k) == 2 * (min * pow2(j))) by (nonlinear_arith)
            requires
                pow2(k) == 2 * pow2(j),
        ;
    }
}

/// Every wait lies between the two bounds of the backoff, whichever of
/// them is the larger.
pub proof fn lemma_delays_bounded(min: nat, max: nat, k: nat)
    ensures
        lower_bound(min, max) <= nth_delay(min, max, k) <= upper_bound(min, max),
    decreases k,
{
    if k > 0 {
        lemma_delays_bounded(min, max, (k - 1) as nat);
    }
}

/// When the shortest wait is no longer than the longest, no wait is
/// shorter than the one before it.
pub proof fn lemma_delays_growing(min: nat, max: nat, k: nat)
    requires
        min <= max,
    ensures
        nth_delay(min, max, k) <= nth_delay(min, max, k + 1),
{
    lemma_delays_bounded(min, max, k);
}

/// The reader's view of one step of the gateway connection.
#[derive(Debug, Clone, Copy, PartialEq, Eq, Structural)]
pub enum ReadEvent {
    /// The relay is shutting down.
    Cancelled,
    /// A text frame arrived.
    Text,
    /// Another frame arrived (ping, pong, binary, close); the websocket
    /// library answers those itself.
    OtherFrame,
    /// Reading failed.
    Failed,
    /// The stream ended.
    Ended,
}

/// What the connection does with one read.
#[derive(Debug, Clone, Copy, PartialEq, Eq, Structural)]
pub enum ReadStep {
    /// Hand the text to the client and read on.
    Handle,
    /// Read on.
    Skip,
    /// Close the connection normally.
    Stop,
    /// Close the connection with a read error.
    StopWithError,
}

pub open spec fn step_for(e: ReadEvent) -> ReadStep {
    match e {
        ReadEvent::Cancelled => ReadStep::Stop,
        ReadEvent::Text => ReadStep::Handle,
        ReadEvent::OtherFrame => ReadStep::Skip,
        ReadEvent::Failed => ReadStep::StopWithError,
        ReadEvent::Ended => ReadStep::Stop,
    }
}

pub fn read_step(e: ReadEvent) -> (r: ReadStep)
    ensures
        r == step_for(e),
{
    match e {
        ReadEvent::Cancelled => ReadStep::Stop,
        ReadEvent::Text => ReadStep::Handle,
        ReadEvent::OtherFrame => ReadStep::Skip,
        ReadEvent::Failed => ReadStep::StopWithError,
        ReadEvent::Ended => ReadStep::Stop,
    }
}

/// The gateway connection's settings and where it stores what it learns.
pub struct Gateway {
    config: AppConfig,
    storage: Storage,
}

impl Gateway {
    pub closed spec fn config_of(&self) -> AppConfig {
        self.config
    }

    pub closed spec fn storage_of(&self) -> Storage {
        self.storage
    }

    pub fn new(config: AppConfig, storage: Storage) -> (r: Self)
        ensures
            r.config_of() == config,
            r.storage_of() == storage,
    {
        Self { config, storage }
    }

    pub fn config(&self) -> (r: &AppConfig)
        ensures
            *r == self.config_of(),
    {
        &self.config
    }

    pub fn storage(&self) -> (r: &Storage)
        ensures
            *r == self.storage_of(),
    {
        &self.storage
    }

    /// The backoff that reconnection starts with.
    pub fn reconnect_backoff() -> (r: Backoff)
        ensures
            r.min_delay() == RECONNECT_MIN_MS,
            r.max_delay() == RECONNECT_MAX_MS,
            r.current_delay() == RECONNECT_MIN_MS,
    {
        Backoff::new(RECONNECT_MIN_MS, RECONNECT_MAX_MS)
    }
}

} // verus!
