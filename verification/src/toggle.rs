//! The toggle operation: a sentinel transition (Phase A) followed by a
//! phase-preserving anchor adjustment (Phase B).
//!
//! Both phases are decided from the same pre-toggle snapshot of the record;
//! Phase B never sees Phase A's output. Their writes are issued to storage
//! in order, so Phase B's anchor write lands after (and over) anything
//! Phase A wrote to the anchor. That coupling is deliberate and is kept
//! exactly: the plan below carries two ordered writes, never one merged
//! update.

use vstd::arithmetic::div_mod::lemma_fundamental_div_mod;
use vstd::arithmetic::div_mod::lemma_mod_add_multiples_vanish;
use vstd::arithmetic::div_mod::lemma_mod_sub_multiples_vanish;
use vstd::arithmetic::div_mod::lemma_small_mod;
use vstd::arithmetic::div_mod::lemma_sub_mod_noop;
use vstd::prelude::*;

use crate::record::derive_status;
use crate::record::ChoreRecord;
use crate::record::MAX_SCHEDULE_HOURS;
use crate::record::SECS_IN_HOUR;
use crate::record::SENTINEL_HOURS;
use crate::record::spec_freq_secs;
use crate::record::spec_on_cadence;
use crate::record::spec_overdue;
use crate::record::valid_now;
use crate::record::valid_record;
use crate::record::valid_time;
use crate::AppError;

verus! {

/// Largest period in seconds, `MAX_SCHEDULE_HOURS` hours.
pub const MAX_FREQ_SECS: i64 = MAX_SCHEDULE_HOURS * SECS_IN_HOUR;

/// `a` lies on the arithmetic grid `{ base + k * freq : k integer }`.
pub open spec fn on_grid(a: int, base: int, freq: int) -> bool
    recommends
        freq > 0,
{
    (a - base) % freq == 0
}

/// The smallest member of `{ anchor + k * freq : k >= 0 }` that is at least
/// `now - freq`: the anchor walked forward period by period.
pub open spec fn spec_advanced_anchor(anchor: int, freq: int, now: int) -> int
    decreases now - anchor,
        when freq > 0
{
    if anchor >= now - freq {
        anchor
    } else {
        spec_advanced_anchor(anchor + freq, freq, now)
    }
}

/// The anchor walked backward period by period until it is at most
/// `now - freq`, i.e. back onto an overdue grid point.
pub open spec fn spec_retreated_anchor(anchor: int, freq: int, now: int) -> int
    decreases anchor + 2 * freq - now,
        when freq > 0
{
    if anchor <= now - freq {
        anchor
    } else {
        spec_retreated_anchor(anchor - freq, freq, now)
    }
}

/// The advanced anchor stays on the snapshot's grid, lands in the window
/// `[now - freq, now)` whenever the walk moves at all, and never moves
/// backward.
pub proof fn lemma_advanced_anchor_props(anchor: int, freq: int, now: int)
    requires
        freq > 0,
    ensures
        ({
            let a = spec_advanced_anchor(anchor, freq, now);
            &&& a >= anchor
            &&& a >= now - freq
            &&& on_grid(a, anchor, freq)
            &&& (anchor >= now - freq ==> a == anchor)
            &&& (anchor < now - freq ==> a < now)
        }),
    decreases now - anchor,
{
    let a = spec_advanced_anchor(anchor, freq, now);
    if anchor >= now - freq {
        lemma_small_mod(0, freq as nat);
    } else {
        lemma_advanced_anchor_props(anchor + freq, freq, now);
        lemma_mod_add_multiples_vanish(a - anchor - freq, freq);
    }
}

/// The retreated anchor stays on the snapshot's grid, ends at most
/// `now - freq`, never moves forward, and never drops below `now - 2*freq`
/// unless it already started there.
pub proof fn lemma_retreated_anchor_props(anchor: int, freq: int, now: int)
    requires
        freq > 0,
    ensures
        ({
            let a = spec_retreated_anchor(anchor, freq, now);
            &&& a <= anchor
            &&& a <= now - freq
            &&& on_grid(a, anchor, freq)
            &&& (anchor <= now - freq ==> a == anchor)
            &&& (anchor > now - 2 * freq ==> a > now - 2 * freq)
        }),
    decreases anchor + 2 * freq - now,
{
    let a = spec_retreated_anchor(anchor, freq, now);
    if anchor <= now - freq {
        lemma_small_mod(0, freq as nat);
    } else {
        lemma_retreated_anchor_props(anchor - freq, freq, now);
        lemma_mod_sub_multiples_vanish(a - anchor + freq, freq);
    }
}

/// Among all grid points of the snapshot's grid that are at least
/// `now - freq`, the advanced anchor is the smallest.
pub proof fn lemma_advanced_anchor_minimal(anchor: int, freq: int, now: int, b: int)
    requires
        freq > 0,
        anchor < now - freq,
        on_grid(b, anchor, freq),
        b >= now - freq,
    ensures
        spec_advanced_anchor(anchor, freq, now) <= b,
{
    let a = spec_advanced_anchor(anchor, freq, now);
    lemma_advanced_anchor_props(anchor, freq, now);
    if a > b {
        // b and a share a grid, so b - a is a multiple of the period; the
        // walk left a below now, so b - a > -freq, and a multiple of the
        // period above -freq cannot be negative.
        let d = b - a;
        lemma_sub_mod_noop(b - anchor, a - anchor, freq);
        lemma_small_mod(0, freq as nat);
        let q = d / freq;
        lemma_fundamental_div_mod(d, freq);
        assert(q <= -1 ==> freq * q <= -freq) by (nonlinear_arith)
            requires
                freq > 0,
        ;
        assert(q >= 0 ==> freq * q >= 0) by (nonlinear_arith)
            requires
                freq > 0,
        ;
        assert(d >= 0);
    }
}

/// Walk the anchor forward by whole periods until it is at least
/// `now - freq`.
pub fn advance_anchor(anchor: i64, freq: i64, now: i64) -> (a: i64)
    requires
        0 < freq <= MAX_FREQ_SECS,
        valid_time(anchor),
        valid_now(now),
    ensures
        a as int == spec_advanced_anchor(anchor as int, freq as int, now as int),
        valid_time(a),
{
    let mut a: i64 = anchor;
    while a < now - freq
        invariant
            0 < freq <= MAX_FREQ_SECS,
            valid_time(anchor),
            valid_now(now),
            anchor <= a,
            a == anchor || a < now,
            spec_advanced_anchor(a as int, freq as int, now as int)
                == spec_advanced_anchor(anchor as int, freq as int, now as int),
        decreases now - a,
    {
        a = a + freq;
    }
    a
}

/// Walk the anchor backward by whole periods until it is at most
/// `now - freq`.
pub fn retreat_anchor(anchor: i64, freq: i64, now: i64) -> (a: i64)
    requires
        0 < freq <= MAX_FREQ_SECS,
        valid_time(anchor),
        valid_now(now),
    ensures
        a as int == spec_retreated_anchor(anchor as int, freq as int, now as int),
        valid_time(a),
{
    let mut a: i64 = anchor;
    while a > now - freq
        invariant
            0 < freq <= MAX_FREQ_SECS,
            valid_time(anchor),
            valid_now(now),
            a <= anchor,
            a == anchor || a > now - 2 * freq,
            spec_retreated_anchor(a as int, freq as int, now as int)
                == spec_retreated_anchor(anchor as int, freq as int, now as int),
        decreases a + 2 * freq - now,
    {
        a = a - freq;
    }
    a
}

/// The stored-record invariant the toggle checks defensively: an on-cadence
/// record must carry a completion anchor.
pub open spec fn spec_on_cadence_requires_anchor(r: ChoreRecord) -> bool {
    spec_on_cadence(r) ==> r.completion_anchor is Some
}

/// Phase A's intended schedule after the sentinel transition: an absent
/// schedule becomes the sentinel, the sentinel is cleared, and a genuine
/// recurring schedule is left alone.
pub open spec fn spec_phase_a_schedule(r: ChoreRecord) -> Option<i64> {
    if r.schedule is None {
        Some(SENTINEL_HOURS)
    } else if r.schedule == Some(SENTINEL_HOURS) {
        None
    } else {
        r.schedule
    }
}

/// The anchor as Phase A leaves it: set to `now` on the sentinel-to-absent
/// transition, untouched otherwise. Phase B's write lands after this one.
pub open spec fn spec_phase_a_anchor(r: ChoreRecord, now: i64) -> Option<i64> {
    if r.schedule == Some(SENTINEL_HOURS) {
        Some(now)
    } else {
        r.completion_anchor
    }
}

/// Phase B's anchor, decided from the pre-toggle snapshot: on-cadence
/// records are walked along their grid (forward when overdue, backward when
/// not); everything else is anchored at `now`. Meaningful only when an
/// on-cadence snapshot carries an anchor.
pub open spec fn spec_phase_b_anchor(r: ChoreRecord, now: i64) -> int
    recommends
        spec_on_cadence(r) ==> r.completion_anchor is Some,
{
    if spec_on_cadence(r) {
        let freq = spec_freq_secs(r.schedule->0);
        let anchor = r.completion_anchor->0 as int;
        if spec_overdue(r, now) {
            spec_advanced_anchor(anchor, freq, now as int)
        } else {
            spec_retreated_anchor(anchor, freq, now as int)
        }
    } else {
        now as int
    }
}

/// The record after a toggle at `now`: Phase A's schedule write followed by
/// Phase B's anchor write. Phase B writes the anchor on every branch, so it
/// overwrites whatever Phase A wrote to the anchor; both writes are still
/// issued against storage in order.
pub open spec fn spec_toggled_record(r: ChoreRecord, now: i64) -> ChoreRecord {
    ChoreRecord {
        id: r.id,
        display_name: r.display_name,
        schedule: spec_phase_a_schedule(r),
        completion_anchor: Some(spec_phase_b_anchor(r, now) as i64),
    }
}

/// Phase A's intended write: the new schedule value (absent clears it) and,
/// when present, an anchor value to set together with it.
#[derive(Clone, Copy, Debug)]
pub struct ScheduleWrite {
    pub schedule: Option<i64>,
    /// `Some(a)` sets the anchor to `a` alongside the schedule; `None`
    /// leaves the anchor untouched.
    pub anchor: Option<i64>,
}

/// The ordered storage writes one toggle issues: first the sentinel
/// transition (when the snapshot calls for one), then the anchor write.
#[derive(Clone, Copy, Debug)]
pub struct TogglePlan {
    pub schedule_write: Option<ScheduleWrite>,
    pub new_anchor: i64,
}

/// Decide both phases of a toggle from one pre-toggle snapshot. Fails with
/// `InvariantViolation` exactly when the snapshot is on cadence but has no
/// completion anchor; the missing-period arm is checked as well even though
/// an on-cadence record owns a period by construction.
pub fn toggle_plan(r: &ChoreRecord, now: i64) -> (res: Result<TogglePlan, AppError>)
    requires
        valid_record(*r),
        valid_now(now),
    ensures
        match res {
            Ok(plan) => {
                &&& !(spec_on_cadence(*r) && r.completion_anchor is None)
                &&& (match plan.schedule_write {
                    Some(sw) => sw.schedule == spec_phase_a_schedule(*r) && sw.anchor == (
                    if r.schedule == Some(SENTINEL_HOURS) {
                        Some(now)
                    } else {
                        None::<i64>
                    }) && (r.schedule is None || r.schedule == Some(SENTINEL_HOURS)),
                    None => r.schedule is Some && r.schedule != Some(SENTINEL_HOURS),
                })
                &&& plan.new_anchor as int == spec_phase_b_anchor(*r, now)
                &&& valid_time(plan.new_anchor)
            },
            Err(e) => e == AppError::InvariantViolation && spec_on_cadence(*r)
                && r.completion_anchor is None,
        },
{
    let schedule_write: Option<ScheduleWrite> = match r.schedule {
        None => Some(ScheduleWrite { schedule: Some(SENTINEL_HOURS), anchor: None }),
        Some(s) => {
            if s == SENTINEL_HOURS {
                Some(ScheduleWrite { schedule: None, anchor: Some(now) })
            } else {
                None
            }
        },
    };
    let st = derive_status(r, now);
    let new_anchor: i64;
    if st.on_cadence {
        let freq: i64 = match r.schedule {
            Some(s) => s * SECS_IN_HOUR,
            None => {
                return Err(AppError::InvariantViolation);
            },
        };
        let anchor: i64 = match r.completion_anchor {
            Some(a) => a,
            None => {
                return Err(AppError::InvariantViolation);
            },
        };
        if st.overdue {
            new_anchor = advance_anchor(anchor, freq, now);
        } else {
            new_anchor = retreat_anchor(anchor, freq, now);
        }
    } else {
        new_anchor = now;
    }
    Ok(TogglePlan { schedule_write, new_anchor })
}

/// Toggle one record: both phases are decided from the snapshot `r`, and
/// their writes are applied to a copy of it in order.
pub fn toggle_record(r: &ChoreRecord, now: i64) -> (res: Result<ChoreRecord, AppError>)
    requires
        valid_record(*r),
        valid_now(now),
    ensures
        match res {
            Ok(r2) => !(spec_on_cadence(*r) && r.completion_anchor is None) && r2
                == spec_toggled_record(*r, now) && valid_record(r2),
            Err(e) => e == AppError::InvariantViolation && spec_on_cadence(*r)
                && r.completion_anchor is None,
        },
{
    let plan = match toggle_plan(r, now) {
        Ok(p) => p,
        Err(e) => {
            return Err(e);
        },
    };
    let mut r2 = ChoreRecord {
        id: r.id,
        display_name: r.display_name.clone(),
        schedule: r.schedule,
        completion_anchor: r.completion_anchor,
    };
    match plan.schedule_write {
        Some(sw) => {
            r2.schedule = sw.schedule;
            match sw.anchor {
                Some(a) => {
                    r2.completion_anchor = Some(a);
                },
                None => {},
            }
        },
        None => {},
    }
    r2.completion_anchor = Some(plan.new_anchor);
    Ok(r2)
}

} // verus!
