//! The link to Redis that spreads notifications across server instances:
//! the reconnect policy, the check that a room is served elsewhere, and the
//! handling of what the link receives.

use crate::api::websocket::WebsocketServerMessage;
use crate::ids::{object_id_to_hex, object_id_text, ObjectId};
use vstd::prelude::*;

verus! {

/// A notification as it travels between server instances: the users it is
/// for and the message.
pub struct RedisSyncMessage {
    pub user_ids: Vec<ObjectId>,
    pub message: WebsocketServerMessage,
}

/// The wait before the first reconnect, in seconds.
pub const INITIAL_BACKOFF_SECS: u64 = 1;

/// The longest wait between reconnects, in seconds.
pub const MAX_BACKOFF_SECS: u64 = 60;

/// After this many failed connections in a row the link gives up.
pub const MAX_CONSECUTIVE_FAILURES: u32 = 5;

/// What follows a failed connection when `failures` connections had
/// already failed in a row.
pub open spec fn spec_failure_action(failures: nat) -> RetryAction {
    if failures + 1 >= MAX_CONSECUTIVE_FAILURES {
        RetryAction::GiveUp
    } else {
        RetryAction::RetryAfter(spec_backoff(failures) as u64)
    }
}

/// The reconnect state: the wait before the next attempt and how many
/// connections have failed in a row.
pub struct RetryPolicy {
    pub backoff_secs: u64,
    pub consecutive_failures: u32,
}

/// What to do when a connection to Redis has ended.
#[derive(Clone, Copy, Debug, PartialEq, Eq, Structural)]
pub enum RetryAction {
    /// The connection ended on shutdown: stop, successfully.
    Shutdown,
    /// Too many failures in a row: stop with the last error.
    GiveUp,
    /// Wait this many seconds, then connect again.
    RetryAfter(u64),
}

/// The wait after `failures` failed connections in a row: doubling from
/// one second, at most a minute.
pub open spec fn spec_backoff(failures: nat) -> int
    decreases failures,
{
    if failures == 0 {
        INITIAL_BACKOFF_SECS as int
    } else {
        let doubled = 2 * spec_backoff((failures - 1) as nat);
        if doubled < MAX_BACKOFF_SECS {
            doubled
        } else {
            MAX_BACKOFF_SECS as int
        }
    }
}

/// Every wait lies between one second and a minute.
pub proof fn lemma_backoff_bounds(failures: nat)
    ensures
        INITIAL_BACKOFF_SECS <= spec_backoff(failures) <= MAX_BACKOFF_SECS,
    decreases failures,
{
    if failures > 0 {
        lemma_backoff_bounds((failures - 1) as nat);
    }
}

impl RetryPolicy {
    /// The policy's consistency: the wait is the one for the failures so far,
    /// and the link has not given up.
    pub open spec fn wf(&self) -> bool {
        &&& self.consecutive_failures < MAX_CONSECUTIVE_FAILURES
        &&& self.backoff_secs == spec_backoff(self.consecutive_failures as nat)
    }

    /// No failure yet; the first wait is one second.
    pub fn new() -> (r: RetryPolicy)
        ensures
            r.wf(),
            r.consecutive_failures == 0,
            r.backoff_secs == INITIAL_BACKOFF_SECS,
    {
        RetryPolicy { backoff_secs: INITIAL_BACKOFF_SECS, consecutive_failures: 0 }
    }

    /// Decides what follows the end of a connection: a clean end stops the
    /// link; a failure counts, gives up at the fifth in a row, and otherwise
    /// waits the current wait and doubles it (up to a minute).
    pub fn on_connection_end(&mut self, failed: bool) -> (r: RetryAction)
        requires
            old(self).wf(),
        ensures
            !failed ==> r == RetryAction::Shutdown && *final(self) == *old(self),
            failed ==> final(self).consecutive_failures == old(self).consecutive_failures + 1,
            failed ==> r == spec_failure_action(old(self).consecutive_failures as nat),
            failed && final(self).consecutive_failures >= MAX_CONSECUTIVE_FAILURES ==> r
                == RetryAction::GiveUp,
            failed && final(self).consecutive_failures < MAX_CONSECUTIVE_FAILURES ==> {
                &&& r == RetryAction::RetryAfter(old(self).backoff_secs)
                &&& final(self).wf()
            },
    {
        if !failed {
            return RetryAction::Shutdown;
        }
        self.consecutive_failures = self.consecutive_failures + 1;
        if self.consecutive_failures >= MAX_CONSECUTIVE_FAILURES {
            return RetryAction::GiveUp;
        }
        let wait = self.backoff_secs;
        proof {
            lemma_backoff_bounds(old(self).consecutive_failures as nat);
        }
        let doubled = self.backoff_secs * 2;
        self.backoff_secs = if doubled < MAX_BACKOFF_SECS {
            doubled
        } else {
            MAX_BACKOFF_SECS
        };
        RetryAction::RetryAfter(wait)
    }
}

/// The waits before the reconnects, one per failure before giving up: 1, 2,
/// 4 and 8 seconds; the fifth failure in a row gives up.
pub proof fn law_backoff_schedule()
    ensures
        spec_backoff(0) == 1,
        spec_backoff(1) == 2,
        spec_backoff(2) == 4,
        spec_backoff(3) == 8,
        spec_backoff(4) == 16,
        spec_backoff(5) == 32,
        spec_backoff(6) == 60,
        spec_backoff(7) == 60,
{
    reveal_with_fuel(spec_backoff, 8);
}

/// The link retries after each of the first four failures in a row and
/// gives up at the fifth.
pub proof fn law_gives_up_at_fifth_failure()
    ensures
        spec_failure_action(0) == RetryAction::RetryAfter(1),
        spec_failure_action(1) == RetryAction::RetryAfter(2),
        spec_failure_action(2) == RetryAction::RetryAfter(4),
        spec_failure_action(3) == RetryAction::RetryAfter(8),
        spec_failure_action(4) == RetryAction::GiveUp,
{
    reveal_with_fuel(spec_backoff, 5);
}

/// Why asking Redis about a room failed.
#[derive(Clone, Copy, Debug, PartialEq, Eq, Structural)]
pub enum RedisError {
    /// `PUBSUB NUMSUB` answered with no entry.
    EmptyResultSet,
}

/// Whether a room is served by another instance, from the answer to
/// `PUBSUB NUMSUB <room>`: its first entry's subscriber count is positive.
pub fn room_available(numsub: &Vec<(String, i64)>) -> (r: Result<bool, RedisError>)
    ensures
        numsub@.len() == 0 ==> r == Err::<bool, RedisError>(RedisError::EmptyResultSet),
        numsub@.len() > 0 ==> r == Ok::<bool, RedisError>(numsub@[0].1 > 0),
{
    if numsub.len() == 0 {
        return Err(RedisError::EmptyResultSet);
    }
    Ok(numsub[0].1 > 0)
}

/// The channel every instance publishes notifications on.
pub open spec fn sync_channel_name() -> Seq<char> {
    seq!['s', 'y', 'n', 'c', '_', 'm', 'e', 's', 's', 'a', 'g', 'e', 's']
}

/// The channel every instance publishes notifications on.
pub fn sync_channel() -> (r: &'static str)
    ensures
        r@ == sync_channel_name(),
{
    proof {
        reveal_strlit("sync_messages");
    }
    let s = "sync_messages";
    assert(s@ =~= sync_channel_name());
    s
}

/// The channel of room `room_id`: the room's id as text.
pub fn room_channel(room_id: &ObjectId) -> (r: String)
    ensures
        r@ == object_id_text(*room_id),
{
    object_id_to_hex(room_id)
}

/// Something that happened on the Redis link.
pub enum RedisEvent {
    /// A message arrived on a subscribed channel; its payload as text, if
    /// it had one.
    Published(Option<String>),
    /// The server asked the link to publish or to (un)subscribe.
    Command,
    /// The server dropped its end of the command channel.
    CommandsClosed,
    /// The process was asked to shut down.
    ShutdownSignal,
    /// The subscription stream ended: the connection is lost.
    StreamEnded,
}

/// What the link does about an event.
#[derive(Clone, Copy, Debug, PartialEq, Eq, Structural)]
pub enum RedisStep {
    /// Read the payload as a notification and deliver it locally.
    Deliver,
    /// Drop the message.
    Ignore,
    /// Carry out the command.
    Execute,
    /// End the connection cleanly.
    Stop,
    /// End the connection with an error, so that it is retried.
    Fail,
    /// Abort: the server is gone.
    Abort,
}

/// What the link does about an event: deliver what has a payload, carry out
/// commands, stop on shutdown, fail when the connection is lost, abort when
/// the server is gone.
pub fn connection_step(event: &RedisEvent) -> (r: RedisStep)
    ensures
        r == match *event {
            RedisEvent::Published(Some(_)) => RedisStep::Deliver,
            RedisEvent::Published(None) => RedisStep::Ignore,
            RedisEvent::Command => RedisStep::Execute,
            RedisEvent::CommandsClosed => RedisStep::Abort,
            RedisEvent::ShutdownSignal => RedisStep::Stop,
            RedisEvent::StreamEnded => RedisStep::Fail,
        },
{
    match event {
        RedisEvent::Published(Some(_)) => RedisStep::Deliver,
        RedisEvent::Published(None) => RedisStep::Ignore,
        RedisEvent::Command => RedisStep::Execute,
        RedisEvent::CommandsClosed => RedisStep::Abort,
        RedisEvent::ShutdownSignal => RedisStep::Stop,
        RedisEvent::StreamEnded => RedisStep::Fail,
    }
}

} // verus!
