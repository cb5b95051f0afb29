//! Wall-clock time as the library sees it: unsigned nanoseconds since the Unix
//! epoch. Every rule that depends on time is stated over these integers, so a
//! caller may also supply the time itself.

use vstd::prelude::*;

verus! {

/// Calls `std::time::SystemTime::elapsed` on `UNIX_EPOCH` and hands the
/// duration out as whole nanoseconds; `None` where the system clock reads a
/// time before the epoch. Nothing is claimed of the number: it is whatever the
/// machine's clock says.
#[verifier::external_body]
fn since_epoch() -> (elapsed: Option<u128>) {
    match std::time::UNIX_EPOCH.elapsed() {
        Ok(duration) => Some(duration.as_nanos()),
        Err(_) => None,
    }
}

/// The current time in nanoseconds since the Unix epoch. A clock that reads
/// earlier than the epoch counts as the epoch itself.
pub fn now() -> u128 {
    time_of(since_epoch())
}

/// The time that a reading of the clock stands for: the nanoseconds it gives,
/// and the epoch itself where the clock reads earlier than the epoch.
pub open spec fn reading(elapsed: Option<u128>) -> u128 {
    match elapsed {
        Some(nanos) => nanos,
        None => 0,
    }
}

/// Turns a reading of the clock into a time.
pub fn time_of(elapsed: Option<u128>) -> (at: u128)
    ensures
        at == reading(elapsed),
{
    match elapsed {
        Some(nanos) => nanos,
        None => 0,
    }
}

/// Whether a value last refreshed at `last_update` is stale at `now`.
///
/// A value that was never refreshed is always stale. One without an interval
/// is refreshed once and never again. Otherwise the value is stale once
/// strictly more than `interval` has passed since `last_update`.
pub open spec fn is_stale(last_update: Option<u128>, interval: Option<u128>, now: u128) -> bool {
    match last_update {
        None => true,
        Some(since) => match interval {
            None => false,
            Some(span) => now - since > span,
        },
    }
}

/// The last instant at which a value refreshed at `since` is still fresh,
/// held to the largest time that can be written down.
pub open spec fn expiry(since: u128, span: u128) -> u128 {
    if since + span > u128::MAX {
        u128::MAX
    } else {
        (since + span) as u128
    }
}

/// Decides staleness at `now`.
pub fn stale_at(last_update: Option<u128>, interval: Option<u128>, now: u128) -> (stale: bool)
    ensures
        stale == is_stale(last_update, interval, now),
{
    match last_update {
        None => true,
        Some(since) => match interval {
            None => false,
            Some(span) => now > since && now - since > span,
        },
    }
}

/// A value is stale exactly at the times after its expiry.
pub proof fn lemma_stale_after_expiry(since: u128, span: u128, now: u128)
    ensures
        is_stale(Some(since), Some(span), now) <==> now > expiry(since, span),
{
}

} // verus!
