//! When an abandoned room may go.
//!
//! A room whose last viewer left is not deleted at once. Whoever saw it empty
//! waits for the grace period and then asks again: the room goes only if
//! nothing has been published since for at least that long. Any arrival, chat
//! line or command in between moves the room's last activity forward, so the
//! wait needs no cancelling.

use crate::clock::{ClockError, Instant};
use crate::room::{Room, RoomView};
use vstd::prelude::*;

verus! {

/// How long a room is kept after it was last published: five minutes.
pub const GRACE_PERIOD_NANOS: i128 = 300_000_000_000;

/// Whether the grace period has run out at `now` for a room last published at `last_activity`.
///
/// A clock that reads earlier than the last activity gives no answer.
pub open spec fn grace_verdict(last_activity: Instant, now: Instant) -> Result<bool, ClockError> {
    if now.nanos < last_activity.nanos {
        Err(ClockError::WentBackwards)
    } else {
        Ok(now.nanos - last_activity.nanos >= GRACE_PERIOD_NANOS)
    }
}

/// Whether the grace period has run out at `now` for a room last published at `last_activity`.
pub fn grace_expired(last_activity: Instant, now: Instant) -> (verdict: Result<bool, ClockError>)
    ensures
        verdict == grace_verdict(last_activity, now),
{
    if now.nanos < last_activity.nanos {
        return Err(ClockError::WentBackwards);
    }
    match now.nanos.checked_sub(last_activity.nanos) {
        Some(idle) => Ok(idle >= GRACE_PERIOD_NANOS),
        None => Ok(true),
    }
}

impl RoomView {
    /// Whether nobody is watching.
    pub open spec fn is_empty(self) -> bool {
        self.viewers.len() == 0
    }
}

impl Room {
    /// Whether nobody is watching, so that the wait for deletion begins.
    pub fn is_empty(&self) -> (yes: bool)
        ensures
            yes == self@.is_empty(),
    {
        self.viewers.len() == 0
    }

    /// Whether the room may be deleted at `now`.
    pub fn may_delete_at(&self, now: Instant) -> (verdict: Result<bool, ClockError>)
        ensures
            verdict == grace_verdict(self@.last_activity, now),
    {
        grace_expired(self.last_activity, now)
    }
}

} // verus!
