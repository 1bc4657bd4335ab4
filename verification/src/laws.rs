//! The engine's laws: properties that hold of the derivation and toggle
//! rules for every input, proved once and for all.

use vstd::prelude::*;

use crate::record::status_matches;
use crate::record::spec_freq_secs;
use crate::record::spec_on_cadence;
use crate::record::spec_overdue;
use crate::record::valid_now;
use crate::record::valid_record;
use crate::record::ChoreRecord;
use crate::record::ChoreStatus;
use crate::record::SENTINEL_HOURS;
use crate::toggle::lemma_advanced_anchor_minimal;
use crate::toggle::lemma_advanced_anchor_props;
use crate::toggle::lemma_retreated_anchor_props;
use crate::toggle::on_grid;
use crate::toggle::spec_toggled_record;

verus! {

/// A record with no schedule and no anchor is never overdue, is not on
/// cadence, and has no days-until-overdue.
pub proof fn lemma_unconfigured_record_idle(r: ChoreRecord, now: i64, st: ChoreStatus)
    requires
        r.schedule is None,
        r.completion_anchor is None,
        status_matches(r, now, st),
    ensures
        !st.overdue,
        !st.on_cadence,
        st.seconds_until_overdue is None,
{
}

/// A record whose schedule is the sentinel is overdue and off cadence,
/// whatever its anchor holds.
pub proof fn lemma_sentinel_forces_overdue(r: ChoreRecord, now: i64, st: ChoreStatus)
    requires
        r.schedule == Some(SENTINEL_HOURS),
        status_matches(r, now, st),
    ensures
        st.overdue,
        !st.on_cadence,
{
}

/// Toggling twice from an unscheduled state is a sentinel round trip: the
/// schedule goes absent -> sentinel -> absent, and the record comes back
/// unscheduled with its anchor at the second toggle's `now`.
pub proof fn lemma_unscheduled_toggle_round_trip(r: ChoreRecord, now1: i64, now2: i64)
    requires
        valid_record(r),
        valid_now(now1),
        valid_now(now2),
        r.schedule is None,
    ensures
        ({
            let r1 = spec_toggled_record(r, now1);
            let r2 = spec_toggled_record(r1, now2);
            &&& r1.schedule == Some(SENTINEL_HOURS)
            &&& r2.schedule is None
            &&& r2.completion_anchor == Some(now2)
            &&& r2.id == r.id
            &&& r2.display_name == r.display_name
        }),
{
}

/// Toggling an on-cadence record that is not overdue forces it back onto an
/// overdue grid point: the new anchor is at most `now - freq`, lies on the
/// old anchor's grid, and stays above `now - 2*freq`.
pub proof fn lemma_toggle_not_overdue_retreats(r: ChoreRecord, now: i64)
    requires
        valid_record(r),
        valid_now(now),
        spec_on_cadence(r),
        r.completion_anchor is Some,
        !spec_overdue(r, now),
    ensures
        ({
            let freq = spec_freq_secs(r.schedule->0);
            let t = r.completion_anchor->0 as int;
            let r2 = spec_toggled_record(r, now);
            &&& r2.schedule == r.schedule
            &&& (r2.completion_anchor matches Some(a) && {
                &&& a <= now - freq
                &&& a > now - 2 * freq
                &&& a <= t
                &&& on_grid(a as int, t, freq)
            })
        }),
{
    let freq = spec_freq_secs(r.schedule->0);
    let t = r.completion_anchor->0 as int;
    lemma_retreated_anchor_props(t, freq, now as int);
}

/// Toggling an on-cadence record that is overdue advances the anchor to the
/// smallest point of the old anchor's grid that is at least `now - freq`;
/// that point lies below `now`.
pub proof fn lemma_toggle_overdue_advances(r: ChoreRecord, now: i64)
    requires
        valid_record(r),
        valid_now(now),
        spec_on_cadence(r),
        r.completion_anchor is Some,
        spec_overdue(r, now),
    ensures
        ({
            let freq = spec_freq_secs(r.schedule->0);
            let t = r.completion_anchor->0 as int;
            let r2 = spec_toggled_record(r, now);
            &&& r2.schedule == r.schedule
            &&& (r2.completion_anchor matches Some(a) && {
                &&& now - freq <= a < now
                &&& t <= a
                &&& on_grid(a as int, t, freq)
                &&& forall|b: int|
                    on_grid(b, t, freq) && b >= now - freq ==> a <= b
            })
        }),
{
    let freq = spec_freq_secs(r.schedule->0);
    let t = r.completion_anchor->0 as int;
    lemma_advanced_anchor_props(t, freq, now as int);
    let r2 = spec_toggled_record(r, now);
    let a = r2.completion_anchor->0;
    assert forall|b: int| on_grid(b, t, freq) && b >= now - freq implies a <= b by {
        lemma_advanced_anchor_minimal(t, freq, now as int, b);
    }
}

} // verus!
