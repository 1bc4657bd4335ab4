//! The in-memory store and the engine's entry points over it.

use chore_cadence::record::ChoreRecord;
use chore_cadence::record::ChoreStatus;
use chore_cadence::store::ChoreStore;
use chore_cadence::AppError;

fn record(id: i64, schedule: Option<i64>, anchor: Option<i64>) -> ChoreRecord {
    ChoreRecord {
        id,
        display_name: format!("chore {id}"),
        schedule,
        completion_anchor: anchor,
    }
}

fn status_of(statuses: &[ChoreStatus], id: i64) -> &ChoreStatus {
    statuses.iter().find(|st| st.id == id).expect("status for id")
}

#[test]
fn fetch_all_is_ordered_by_id() {
    let mut store = ChoreStore::new();
    assert!(store.add_record(record(3, None, None)));
    assert!(store.add_record(record(1, Some(24), Some(100))));
    assert!(store.add_record(record(2, Some(1), None)));
    let ids: Vec<i64> = store.fetch_all().iter().map(|r| r.id).collect();
    assert_eq!(ids, vec![1, 2, 3]);
}

#[test]
fn duplicate_id_is_rejected() {
    let mut store = ChoreStore::new();
    assert!(store.add_record(record(1, None, None)));
    assert!(!store.add_record(record(1, Some(24), None)));
    assert_eq!(store.fetch_all().len(), 1);
}

#[test]
fn fetch_by_id_finds_the_record() {
    let mut store = ChoreStore::new();
    store.add_record(record(7, Some(48), Some(500)));
    let r = store.fetch_by_id(7).unwrap();
    assert_eq!(r.id, 7);
    assert_eq!(r.schedule, Some(48));
    assert_eq!(store.fetch_by_id(8).unwrap_err(), AppError::NotFound);
}

#[test]
fn write_schedule_can_leave_anchor_untouched() {
    let mut store = ChoreStore::new();
    store.add_record(record(1, None, Some(250)));
    store.write_schedule(1, Some(1), None).unwrap();
    let r = store.fetch_by_id(1).unwrap();
    assert_eq!(r.schedule, Some(1));
    assert_eq!(r.completion_anchor, Some(250));
}

#[test]
fn write_schedule_can_set_anchor_too() {
    let mut store = ChoreStore::new();
    store.add_record(record(1, Some(1), Some(250)));
    store.write_schedule(1, None, Some(900)).unwrap();
    let r = store.fetch_by_id(1).unwrap();
    assert_eq!(r.schedule, None);
    assert_eq!(r.completion_anchor, Some(900));
}

#[test]
fn write_anchor_sets_only_the_anchor() {
    let mut store = ChoreStore::new();
    store.add_record(record(1, Some(48), Some(250)));
    store.write_anchor(1, 4000).unwrap();
    let r = store.fetch_by_id(1).unwrap();
    assert_eq!(r.schedule, Some(48));
    assert_eq!(r.completion_anchor, Some(4000));
    assert_eq!(store.write_anchor(99, 4000).unwrap_err(), AppError::NotFound);
}

#[test]
fn list_with_status_covers_every_record() {
    let mut store = ChoreStore::new();
    let now = 1_000_000;
    store.add_record(record(1, None, None));
    store.add_record(record(2, Some(1), None));
    store.add_record(record(3, Some(48), Some(now - 200_000)));
    let statuses = store.list_with_status(now);
    assert_eq!(statuses.len(), 3);
    assert_eq!(status_of(&statuses, 1).overdue, false);
    assert_eq!(status_of(&statuses, 2).overdue, true);
    let third = status_of(&statuses, 3);
    assert_eq!(third.overdue, true);
    assert_eq!(third.on_cadence, true);
    assert_eq!(third.chore_name, "chore 3");
}

#[test]
fn toggle_unknown_id_is_not_found() {
    let mut store = ChoreStore::new();
    store.add_record(record(1, None, None));
    assert_eq!(store.toggle(2, 1000).unwrap_err(), AppError::NotFound);
}

#[test]
fn toggle_on_cadence_without_anchor_is_invariant_violation() {
    let mut store = ChoreStore::new();
    store.add_record(record(1, Some(48), None));
    assert_eq!(store.toggle(1, 1000).unwrap_err(), AppError::InvariantViolation);
    // the failed toggle leaves the record untouched
    let r = store.fetch_by_id(1).unwrap();
    assert_eq!(r.schedule, Some(48));
    assert_eq!(r.completion_anchor, None);
}

#[test]
fn toggle_returns_the_full_refreshed_list() {
    let mut store = ChoreStore::new();
    let now = 1_000_000;
    store.add_record(record(1, None, None));
    store.add_record(record(2, Some(24), Some(now - 100_000)));
    let statuses = store.toggle(1, now).unwrap();
    assert_eq!(statuses.len(), 2);
    // the untoggled record is re-derived, not dropped
    let other = status_of(&statuses, 2);
    assert_eq!(other.overdue, true);
    assert_eq!(other.on_cadence, true);
}

#[test]
fn unscheduled_then_sentinel_toggle_scenario() {
    // toggle an unscheduled record, then toggle the sentinel away again
    let mut store = ChoreStore::new();
    store.add_record(record(1, None, None));

    let statuses = store.toggle(1, 1000).unwrap();
    let st = status_of(&statuses, 1);
    assert_eq!(st.overdue, true);
    assert_eq!(st.on_cadence, false);
    let r = store.fetch_by_id(1).unwrap();
    assert_eq!(r.schedule, Some(1));
    // Phase B anchors the off-cadence snapshot at now
    assert_eq!(r.completion_anchor, Some(1000));

    let statuses = store.toggle(1, 2000).unwrap();
    let st = status_of(&statuses, 1);
    assert_eq!(st.overdue, false);
    assert_eq!(st.on_cadence, false);
    let r = store.fetch_by_id(1).unwrap();
    assert_eq!(r.schedule, None);
    assert_eq!(r.completion_anchor, Some(2000));
}

#[test]
fn toggle_preserves_grid_phase_through_storage() {
    let mut store = ChoreStore::new();
    let t: i64 = 1_000_000;
    store.add_record(record(1, Some(48), Some(t)));

    // not overdue: retreat onto the previous grid point
    store.toggle(1, t + 50_000).unwrap();
    let a1 = store.fetch_by_id(1).unwrap().completion_anchor.unwrap();
    assert_eq!(a1, t - 172_800);

    // now overdue: advance back up the same grid
    let now = t + 50_001;
    store.toggle(1, now).unwrap();
    let a2 = store.fetch_by_id(1).unwrap().completion_anchor.unwrap();
    assert_eq!((a2 - t) % 172_800, 0);
    assert!(a2 >= now - 172_800 && a2 < now);
    assert_eq!(a2, t);
}
