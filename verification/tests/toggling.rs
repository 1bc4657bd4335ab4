//! The two-phase toggle on single records.

use chore_cadence::record::ChoreRecord;
use chore_cadence::toggle::toggle_plan;
use chore_cadence::toggle::toggle_record;
use chore_cadence::AppError;

fn record(id: i64, schedule: Option<i64>, anchor: Option<i64>) -> ChoreRecord {
    ChoreRecord {
        id,
        display_name: format!("chore {id}"),
        schedule,
        completion_anchor: anchor,
    }
}

#[test]
fn unscheduled_toggle_sets_sentinel() {
    let r = record(1, None, None);
    let r1 = toggle_record(&r, 1000).unwrap();
    assert_eq!(r1.schedule, Some(1));
    // Phase B still writes the anchor: the snapshot is off cadence and not
    // overdue, so the anchor lands at now
    assert_eq!(r1.completion_anchor, Some(1000));
    assert_eq!(r1.id, 1);
    assert_eq!(r1.display_name, "chore 1");
}

#[test]
fn sentinel_toggle_clears_schedule_and_anchors_at_now() {
    let r = record(2, Some(1), Some(500));
    let r1 = toggle_record(&r, 2000).unwrap();
    assert_eq!(r1.schedule, None);
    assert_eq!(r1.completion_anchor, Some(2000));
}

#[test]
fn double_toggle_from_unscheduled_round_trips() {
    let r = record(3, None, None);
    let r1 = toggle_record(&r, 1000).unwrap();
    let r2 = toggle_record(&r1, 2000).unwrap();
    assert_eq!(r2.schedule, None);
    assert_eq!(r2.completion_anchor, Some(2000));
    assert_eq!(r2.id, 3);
    assert_eq!(r2.display_name, "chore 3");
}

#[test]
fn not_overdue_toggle_retreats_onto_overdue_grid_point() {
    // 48-hour period, not overdue: the anchor walks back onto the grid
    let t: i64 = 1_000_000;
    let now = t + 50_000;
    let r = record(4, Some(48), Some(t));
    let r1 = toggle_record(&r, now).unwrap();
    assert_eq!(r1.schedule, Some(48));
    let a = r1.completion_anchor.unwrap();
    assert!(a <= now - 172_800);
    assert_eq!((t - a) % 172_800, 0);
    assert_eq!(a, t - 172_800);
}

#[test]
fn overdue_toggle_advances_to_smallest_grid_point_in_window() {
    // 48-hour period, overdue by more than two periods
    let t: i64 = 1_000_000;
    let now = t + 400_000;
    let r = record(5, Some(48), Some(t));
    let r1 = toggle_record(&r, now).unwrap();
    assert_eq!(r1.schedule, Some(48));
    let a = r1.completion_anchor.unwrap();
    assert!(a >= now - 172_800);
    assert!(a < now);
    assert_eq!((a - t) % 172_800, 0);
    // smallest such grid point: one period earlier is below the bound
    assert!(a - 172_800 < now - 172_800);
    assert_eq!(a, t + 2 * 172_800);
}

#[test]
fn exactly_one_period_elapsed_keeps_anchor() {
    // now - anchor == freq is not overdue, and the walk has nothing to do
    let t: i64 = 1_000_000;
    let now = t + 172_800;
    let r = record(6, Some(48), Some(t));
    let r1 = toggle_record(&r, now).unwrap();
    assert_eq!(r1.completion_anchor, Some(t));
}

#[test]
fn barely_overdue_advances_by_whole_periods() {
    // one second past the period: the walk still lands inside the window
    let t: i64 = 1_000_000;
    let now = t + 172_801;
    let r = record(7, Some(48), Some(t));
    let r1 = toggle_record(&r, now).unwrap();
    let a = r1.completion_anchor.unwrap();
    assert_eq!(a, t + 172_800);
    assert!(a >= now - 172_800 && a < now);
}

#[test]
fn on_cadence_without_anchor_is_invariant_violation() {
    let r = record(8, Some(48), None);
    assert_eq!(toggle_record(&r, 1_000_000).unwrap_err(), AppError::InvariantViolation);
    assert_eq!(toggle_plan(&r, 1_000_000).unwrap_err(), AppError::InvariantViolation);
}

#[test]
fn plan_issues_ordered_writes_for_sentinel_transition() {
    let r = record(9, Some(1), Some(100));
    let plan = toggle_plan(&r, 5000).unwrap();
    let sw = plan.schedule_write.expect("sentinel clears the schedule");
    assert_eq!(sw.schedule, None);
    assert_eq!(sw.anchor, Some(5000));
    // Phase B's write lands after Phase A's and carries the same value here
    assert_eq!(plan.new_anchor, 5000);
}

#[test]
fn plan_leaves_genuine_schedule_alone() {
    let t: i64 = 1_000_000;
    let r = record(10, Some(2), Some(t));
    let plan = toggle_plan(&r, t + 100).unwrap();
    assert!(plan.schedule_write.is_none());
}
