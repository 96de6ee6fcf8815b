//! Calendar arithmetic: days, the daily slot of a timestamp, and the two
//! ages after which stored data no longer counts.

use vstd::prelude::*;

verus! {

/// Number of reusable daily slots, which is also the retention window in days.
pub const DAYS_TO_KEEP: u64 = 60;

/// Length of one calendar day in seconds.
pub const SECONDS_PER_DAY: u64 = 86_400;

/// Age in days after which an idle slot belongs to an earlier round.
/// Any value from one day up to one less than `DAYS_TO_KEEP` is sound.
pub const SLOT_GRACE_DAYS: u64 = 10;

/// Age in seconds after which the counters of an identifier are stale.
pub const RETENTION_WINDOW: u64 = SECONDS_PER_DAY * DAYS_TO_KEEP;

/// Age in seconds after which a slot is cleared before it is written again.
pub const SLOT_GRACE: u64 = SECONDS_PER_DAY * SLOT_GRACE_DAYS;

/// The calendar day that `timestamp` falls into, counted from the epoch.
pub open spec fn day_of(timestamp: u64) -> int {
    timestamp as int / SECONDS_PER_DAY as int
}

/// The first second of the calendar day that `timestamp` falls into.
pub open spec fn day_start(timestamp: u64) -> int {
    timestamp as int - timestamp as int % SECONDS_PER_DAY as int
}

/// The slot that serves the calendar day of `timestamp`.
pub open spec fn slot_index(timestamp: u64) -> int {
    day_of(timestamp) % DAYS_TO_KEEP as int
}

/// Whether something last written at `last` is more than `limit` seconds old at `now`.
/// The ages are mathematical integers: a write that lies in the future is never old.
pub open spec fn older_than(last: u64, now: u64, limit: u64) -> bool {
    now as int - last as int > limit as int
}

/// Maps a timestamp to the index of the daily slot that serves its calendar day.
pub fn slot_for(timestamp: u64) -> (index: u64)
    ensures
        index == slot_index(timestamp),
        index < DAYS_TO_KEEP,
{
    (timestamp / SECONDS_PER_DAY) % DAYS_TO_KEEP
}

/// The first second of the calendar day of `now`.
pub fn start_of_day(now: u64) -> (start: u64)
    ensures
        start == day_start(now),
        start <= now,
        start as int == day_of(now) * SECONDS_PER_DAY as int,
{
    now - now % SECONDS_PER_DAY
}

/// Decides whether `last` lies more than `limit` seconds before `now`.
pub fn is_older_than(last: u64, now: u64, limit: u64) -> (old_enough: bool)
    ensures
        old_enough == older_than(last, now, limit),
{
    now > last && now - last > limit
}

/// Two days are served by the same slot exactly if they lie a whole number
/// of rounds apart: each slot comes up once in every `DAYS_TO_KEEP` days.
pub proof fn law_slots_come_round(t: u64, u: u64)
    ensures
        slot_index(u) == slot_index(t) <==> (day_of(u) - day_of(t)) % DAYS_TO_KEEP as int == 0,
{
}

/// Consecutive days are served by consecutive slots, wrapping at the last one.
pub proof fn law_slots_follow_the_calendar(t: u64, u: u64)
    requires
        day_of(u) == day_of(t) + 1,
    ensures
        slot_index(u) == (slot_index(t) + 1) % DAYS_TO_KEEP as int,
{
}

/// The grace period is at least a day and less than a round of the slots.
pub proof fn law_grace_within_a_round()
    ensures
        1 <= SLOT_GRACE_DAYS < DAYS_TO_KEEP,
        SLOT_GRACE == SLOT_GRACE_DAYS * SECONDS_PER_DAY,
        RETENTION_WINDOW == DAYS_TO_KEEP * SECONDS_PER_DAY,
{
}

/// The grace period tells the rounds apart. Of a slot that was last written
/// at `last` and is the slot of `now`, the last write is older than the grace
/// period exactly if it was made on an earlier day, which is then a day of an
/// earlier round: what the day in progress has logged is never taken for old,
/// and what an earlier round has left is always.
pub proof fn law_grace_tells_rounds_apart(last: u64, now: u64)
    requires
        last <= now,
        slot_index(last) == slot_index(now),
    ensures
        older_than(last, now, SLOT_GRACE) <==> day_of(last) < day_of(now),
        day_of(last) < day_of(now) ==> day_of(now) - day_of(last) >= DAYS_TO_KEEP,
{
}

} // verus!
