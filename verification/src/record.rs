//! The stored chore record, its derived status, and the derivation rules.
//!
//! A record stores an optional recurrence period (`schedule`, whole hours)
//! and an optional `completion_anchor` (Unix seconds, a point on the
//! recurrence grid). The period value of one hour is overloaded as a
//! sentinel meaning "manually forced overdue, no real schedule"; that
//! collision is preserved deliberately, so a genuine one-hour cadence is
//! indistinguishable from the forced-overdue marker.

use vstd::prelude::*;

verus! {

/// The reserved period value (in hours) meaning "forced overdue".
pub const SENTINEL_HOURS: i64 = 1;

pub const SECS_IN_HOUR: i64 = 60 * 60;

pub const SECS_IN_DAY: i64 = 60 * 60 * 24;

/// Bound on timestamps the engine accepts; generous for Unix seconds while
/// keeping every intermediate sum and difference inside `i64`.
pub const MAX_TIME: i64 = 0x2000_0000_0000_0000;

/// Bound on the recurrence period in hours, so `schedule * SECS_IN_HOUR`
/// and the grid walks stay inside `i64`.
pub const MAX_SCHEDULE_HOURS: i64 = 0x4_0000_0000;

/// A persisted chore record. Only the toggle operation mutates `schedule`
/// and `completion_anchor`; `id` and `display_name` are never touched.
#[derive(Debug)]
pub struct ChoreRecord {
    pub id: i64,
    pub display_name: String,
    /// Recurrence period in whole hours; absent means no recurrence is
    /// configured. `Some(SENTINEL_HOURS)` is the forced-overdue sentinel.
    pub schedule: Option<i64>,
    /// Unix timestamp (seconds) of a point on the recurrence grid; not
    /// necessarily the most recent literal completion.
    pub completion_anchor: Option<i64>,
}

/// A period is at least one hour (the sentinel is the minimum) and small
/// enough that all period arithmetic fits in `i64`.
pub open spec fn valid_schedule(s: i64) -> bool {
    1 <= s <= MAX_SCHEDULE_HOURS
}

pub open spec fn valid_time(t: i64) -> bool {
    -MAX_TIME <= t <= MAX_TIME
}

/// The engine is called with a non-negative wall-clock timestamp.
pub open spec fn valid_now(now: i64) -> bool {
    0 <= now <= MAX_TIME
}

pub open spec fn valid_record(r: ChoreRecord) -> bool {
    &&& (r.schedule matches Some(s) ==> valid_schedule(s))
    &&& (r.completion_anchor matches Some(a) ==> valid_time(a))
}

/// The recurrence period in seconds.
pub open spec fn spec_freq_secs(s: i64) -> int {
    s * SECS_IN_HOUR
}

/// A chore is on cadence when it has a genuine recurring schedule, i.e. a
/// period that is present and is not the forced-overdue sentinel.
pub open spec fn spec_on_cadence(r: ChoreRecord) -> bool {
    r.schedule is Some && r.schedule != Some(SENTINEL_HOURS)
}

/// Overdue by the period: the time since the anchor exceeds the period.
/// `(now - anchor) / 86400 > freq_secs / 86400` compared exactly, i.e.
/// `now - anchor > freq_secs`. False when either field is absent.
pub open spec fn spec_overdue_by_freq(r: ChoreRecord, now: i64) -> bool {
    match (r.schedule, r.completion_anchor) {
        (Some(s), Some(a)) => now - a > spec_freq_secs(s),
        _ => false,
    }
}

/// Overdue: past the next expected grid point, or forced overdue by the
/// sentinel regardless of the anchor.
pub open spec fn spec_overdue(r: ChoreRecord, now: i64) -> bool {
    spec_overdue_by_freq(r, now) || r.schedule == Some(SENTINEL_HOURS)
}

/// Seconds until the chore becomes overdue (negative once overdue);
/// dividing by `SECS_IN_DAY` gives the days-until-overdue value exactly.
/// Meaningful only when both `schedule` and `completion_anchor` are present.
pub open spec fn spec_seconds_until_overdue(r: ChoreRecord, now: i64) -> int
    recommends
        r.schedule is Some,
        r.completion_anchor is Some,
{
    spec_freq_secs(r.schedule->0) - (now - r.completion_anchor->0)
}

/// The derived status of a chore at time `now`. Day-valued quantities are
/// kept as exact second counts (`seconds_until_overdue / SECS_IN_DAY` is
/// the fractional days-until-overdue); the engine stores no approximation.
#[derive(Debug)]
pub struct ChoreStatus {
    pub id: i64,
    pub chore_name: String,
    pub overdue: bool,
    pub on_cadence: bool,
    /// Numerator of days-until-overdue over `SECS_IN_DAY`; present exactly
    /// when both `schedule` and `completion_anchor` are present.
    pub seconds_until_overdue: Option<i64>,
    pub freq_secs: Option<i64>,
    pub last_completed_at: Option<i64>,
}

/// `st` is exactly the status derived from `r` at time `now`.
pub open spec fn status_matches(r: ChoreRecord, now: i64, st: ChoreStatus) -> bool {
    &&& st.id == r.id
    &&& st.chore_name == r.display_name
    &&& st.overdue == spec_overdue(r, now)
    &&& st.on_cadence == spec_on_cadence(r)
    &&& (match r.schedule {
        Some(s) => st.freq_secs matches Some(f) && f == spec_freq_secs(s),
        None => st.freq_secs is None,
    })
    &&& st.last_completed_at == r.completion_anchor
    &&& (match (r.schedule, r.completion_anchor) {
        (Some(s), Some(a)) => st.seconds_until_overdue matches Some(d)
            && d == spec_seconds_until_overdue(r, now),
        _ => st.seconds_until_overdue is None,
    })
}

/// Derive the status of one record at time `now`. Pure and total: absent
/// optional fields propagate as absent outputs, and a `now` before the
/// anchor simply yields a negative elapsed time (hence not overdue).
pub fn derive_status(r: &ChoreRecord, now: i64) -> (st: ChoreStatus)
    requires
        valid_record(*r),
        valid_now(now),
    ensures
        status_matches(*r, now, st),
{
    let freq_secs: Option<i64> = match r.schedule {
        Some(s) => Some(s * SECS_IN_HOUR),
        None => None,
    };
    let on_cadence: bool = match r.schedule {
        Some(s) => s != SENTINEL_HOURS,
        None => false,
    };
    let overdue_by_freq: bool = match (r.schedule, r.completion_anchor) {
        (Some(s), Some(a)) => now - a > s * SECS_IN_HOUR,
        _ => false,
    };
    let forced_overdue: bool = match r.schedule {
        Some(s) => s == SENTINEL_HOURS,
        None => false,
    };
    let seconds_until_overdue: Option<i64> = match (r.schedule, r.completion_anchor) {
        (Some(s), Some(a)) => Some(s * SECS_IN_HOUR - (now - a)),
        _ => None,
    };
    ChoreStatus {
        id: r.id,
        chore_name: r.display_name.clone(),
        overdue: overdue_by_freq || forced_overdue,
        on_cadence,
        seconds_until_overdue,
        freq_secs,
        last_completed_at: r.completion_anchor,
    }
}

} // verus!
