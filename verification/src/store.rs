//! An in-memory record store keyed by chore id.
//!
//! The store keeps its records sorted by id, so `fetch_all` hands them back
//! ordered by id. The engine's entry points live here: `list_with_status`
//! derives every record's status at a caller-supplied `now`, and `toggle`
//! runs the two-phase toggle against one record and returns the refreshed
//! list. A toggle issues its two writes as two ordered storage calls; the
//! anchor write of Phase B lands after, and over, anything Phase A wrote.

use vstd::prelude::*;

use crate::record::derive_status;
use crate::record::status_matches;
use crate::record::valid_now;
use crate::record::valid_record;
use crate::record::valid_schedule;
use crate::record::valid_time;
use crate::record::ChoreRecord;
use crate::record::ChoreStatus;
use crate::toggle::spec_on_cadence_requires_anchor;
use crate::toggle::spec_toggled_record;
use crate::toggle::toggle_plan;
use crate::AppError;

verus! {

/// Some record in `s` carries the id.
pub open spec fn spec_contains_id(s: Seq<ChoreRecord>, id: i64) -> bool {
    exists|i: int| 0 <= i < s.len() && (#[trigger] s[i]).id == id
}

/// In-memory chore store; the storage collaborator the engine runs against.
pub struct ChoreStore {
    records: Vec<ChoreRecord>,
}

impl View for ChoreStore {
    type V = Seq<ChoreRecord>;

    closed spec fn view(&self) -> Seq<ChoreRecord> {
        self.records@
    }
}

impl ChoreStore {
    /// Records are strictly ordered by id (hence ids are unique) and every
    /// record satisfies the engine's bounds.
    pub open spec fn well_formed(self) -> bool {
        &&& (forall|i: int, j: int|
            0 <= i < j < self@.len() ==> (#[trigger] self@[i]).id < (#[trigger] self@[j]).id)
        &&& (forall|i: int| 0 <= i < self@.len() ==> valid_record(#[trigger] self@[i]))
    }

    pub fn new() -> (s: ChoreStore)
        ensures
            s.well_formed(),
            s@.len() == 0,
    {
        ChoreStore { records: Vec::new() }
    }

    /// All records, ordered by id.
    pub fn fetch_all(&self) -> (v: &Vec<ChoreRecord>)
        ensures
            v@ == self@,
    {
        &self.records
    }

    fn find_index(&self, id: i64) -> (idx: Option<usize>)
        ensures
            match idx {
                Some(i) => i < self@.len() && self@[i as int].id == id,
                None => !spec_contains_id(self@, id),
            },
    {
        let mut i: usize = 0;
        while i < self.records.len()
            invariant
                i <= self@.len(),
                forall|j: int| 0 <= j < i ==> (#[trigger] self@[j]).id != id,
            decreases self@.len() - i,
        {
            if self.records[i].id == id {
                return Some(i);
            }
            i = i + 1;
        }
        None
    }

    /// Fetch the record with the given id, or `NotFound`.
    pub fn fetch_by_id(&self, id: i64) -> (res: Result<&ChoreRecord, AppError>)
        ensures
            match res {
                Ok(r) => r.id == id && exists|i: int|
                    0 <= i < self@.len() && self@[i] == *r,
                Err(e) => e == AppError::NotFound && !spec_contains_id(self@, id),
            },
    {
        match self.find_index(id) {
            Some(i) => Ok(&self.records[i]),
            None => Err(AppError::NotFound),
        }
    }

    /// Add a record, keeping the store ordered by id. Returns false, and
    /// leaves the store unchanged, when the id is already taken.
    #[verifier::rlimit(60)]
    pub fn add_record(&mut self, r: ChoreRecord) -> (added: bool)
        requires
            old(self).well_formed(),
            valid_record(r),
        ensures
            final(self).well_formed(),
            added == !spec_contains_id(old(self)@, r.id),
            added ==> exists|i: int|
                0 <= i <= old(self)@.len() && final(self)@ == old(self)@.insert(i, r),
            added ==> final(self)@.len() == old(self)@.len() + 1,
            added ==> spec_contains_id(final(self)@, r.id),
            added ==> forall|i: int|
                0 <= i < final(self)@.len() && (#[trigger] final(self)@[i]).id == r.id
                    ==> final(self)@[i] == r,
            added ==> forall|i: int|
                0 <= i < old(self)@.len() ==> final(self)@.contains(#[trigger] old(self)@[i]),
            !added ==> final(self)@ == old(self)@,
    {
        let mut i: usize = 0;
        while i < self.records.len() && self.records[i].id < r.id
            invariant
                old(self).well_formed(),
                self@ == old(self)@,
                i <= self@.len(),
                forall|j: int| 0 <= j < i ==> (#[trigger] self@[j]).id < r.id,
            decreases self@.len() - i,
        {
            i = i + 1;
        }
        if i < self.records.len() && self.records[i].id == r.id {
            return false;
        }
        proof {
            // every record at or after position i has an id above r.id
            assert forall|j: int| i <= j < self@.len() implies (#[trigger] self@[j]).id
                > r.id by {
                if j > i {
                    assert(self@[i as int].id < self@[j].id);
                }
            }
            assert(!spec_contains_id(self@, r.id));
            old(self)@.insert_ensures(i as int, r);
        }
        self.records.insert(i, r);
        proof {
            let s = old(self)@;
            assert forall|p: int, q: int|
                0 <= p < q < self@.len() implies (#[trigger] self@[p]).id
                < (#[trigger] self@[q]).id by {
                if q < i {
                    assert(self@[p] == s[p] && self@[q] == s[q]);
                } else if p > i {
                    assert(self@[p] == s[p - 1] && self@[q] == s[q - 1]);
                } else if p < i && q == i {
                    assert(self@[p] == s[p]);
                } else if p == i && q > i {
                    assert(self@[q] == s[q - 1]);
                } else if p < i && q > i {
                    assert(self@[p] == s[p] && self@[q] == s[q - 1]);
                    assert(s[p].id < r.id && s[q - 1].id > r.id);
                }
            }
            assert forall|j: int| 0 <= j < self@.len() implies valid_record(
                #[trigger] self@[j],
            ) by {
                if j < i {
                    assert(self@[j] == s[j]);
                } else if j > i {
                    assert(self@[j] == s[j - 1]);
                }
            }
            assert forall|j: int| 0 <= j < s.len() implies self@.contains(
                #[trigger] s[j],
            ) by {
                if j < i {
                    assert(self@[j] == s[j]);
                } else {
                    assert(self@[j + 1] == s[j]);
                }
            }
        }
        true
    }

    /// Phase A's storage operation: set the schedule of the record with the
    /// given id and, when `anchor` is present, the completion anchor too.
    pub fn write_schedule(
        &mut self,
        id: i64,
        schedule: Option<i64>,
        anchor: Option<i64>,
    ) -> (res: Result<(), AppError>)
        requires
            old(self).well_formed(),
            schedule matches Some(s) ==> valid_schedule(s),
            anchor matches Some(a) ==> valid_time(a),
        ensures
            final(self).well_formed(),
            match res {
                Ok(_) => {
                    &&& spec_contains_id(old(self)@, id)
                    &&& final(self)@.len() == old(self)@.len()
                    &&& (forall|i: int|
                        0 <= i < final(self)@.len() && (#[trigger] old(self)@[i]).id != id
                            ==> final(self)@[i] == old(self)@[i])
                    &&& (forall|i: int|
                        0 <= i < final(self)@.len() && (#[trigger] old(self)@[i]).id == id
                            ==> final(self)@[i] == (ChoreRecord {
                            id: old(self)@[i].id,
                            display_name: old(self)@[i].display_name,
                            schedule,
                            completion_anchor: if anchor is Some {
                                anchor
                            } else {
                                old(self)@[i].completion_anchor
                            },
                        }))
                },
                Err(e) => e == AppError::NotFound && !spec_contains_id(old(self)@, id)
                    && final(self)@ == old(self)@,
            },
    {
        let i = match self.find_index(id) {
            Some(i) => i,
            None => {
                return Err(AppError::NotFound);
            },
        };
        let rec = &self.records[i];
        let new_rec = ChoreRecord {
            id: rec.id,
            display_name: rec.display_name.clone(),
            schedule,
            completion_anchor: match anchor {
                Some(a) => Some(a),
                None => rec.completion_anchor,
            },
        };
        self.records[i] = new_rec;
        Ok(())
    }

    /// Phase B's storage operation: set the completion anchor of the record
    /// with the given id.
    pub fn write_anchor(&mut self, id: i64, anchor: i64) -> (res: Result<(), AppError>)
        requires
            old(self).well_formed(),
            valid_time(anchor),
        ensures
            final(self).well_formed(),
            match res {
                Ok(_) => {
                    &&& spec_contains_id(old(self)@, id)
                    &&& final(self)@.len() == old(self)@.len()
                    &&& (forall|i: int|
                        0 <= i < final(self)@.len() && (#[trigger] old(self)@[i]).id != id
                            ==> final(self)@[i] == old(self)@[i])
                    &&& (forall|i: int|
                        0 <= i < final(self)@.len() && (#[trigger] old(self)@[i]).id == id
                            ==> final(self)@[i] == (ChoreRecord {
                            id: old(self)@[i].id,
                            display_name: old(self)@[i].display_name,
                            schedule: old(self)@[i].schedule,
                            completion_anchor: Some(anchor),
                        }))
                },
                Err(e) => e == AppError::NotFound && !spec_contains_id(old(self)@, id)
                    && final(self)@ == old(self)@,
            },
    {
        let i = match self.find_index(id) {
            Some(i) => i,
            None => {
                return Err(AppError::NotFound);
            },
        };
        let rec = &self.records[i];
        let new_rec = ChoreRecord {
            id: rec.id,
            display_name: rec.display_name.clone(),
            schedule: rec.schedule,
            completion_anchor: Some(anchor),
        };
        self.records[i] = new_rec;
        Ok(())
    }

    /// Derive every record's status at time `now`, in id order.
    pub fn list_with_status(&self, now: i64) -> (statuses: Vec<ChoreStatus>)
        requires
            self.well_formed(),
            valid_now(now),
        ensures
            statuses@.len() == self@.len(),
            forall|i: int|
                0 <= i < self@.len() ==> status_matches(
                    self@[i],
                    now,
                    #[trigger] statuses@[i],
                ),
    {
        let mut statuses: Vec<ChoreStatus> = Vec::new();
        let mut i: usize = 0;
        while i < self.records.len()
            invariant
                self.well_formed(),
                valid_now(now),
                i <= self@.len(),
                statuses@.len() == i,
                forall|j: int|
                    0 <= j < i ==> status_matches(self@[j], now, #[trigger] statuses@[j]),
            decreases self@.len() - i,
        {
            let st = derive_status(&self.records[i], now);
            statuses.push(st);
            i = i + 1;
        }
        statuses
    }

    /// Toggle the chore with the given id at time `now`: decide both phases
    /// from the pre-toggle snapshot, issue Phase A's schedule write and then
    /// Phase B's anchor write, and return the refreshed statuses of all
    /// records. `NotFound` when the id is unknown; `InvariantViolation` when
    /// the snapshot is on cadence without an anchor; either error leaves the
    /// store unchanged.
    pub fn toggle(&mut self, id: i64, now: i64) -> (res: Result<Vec<ChoreStatus>, AppError>)
        requires
            old(self).well_formed(),
            valid_now(now),
        ensures
            final(self).well_formed(),
            match res {
                Ok(statuses) => {
                    &&& spec_contains_id(old(self)@, id)
                    &&& final(self)@.len() == old(self)@.len()
                    &&& (forall|i: int|
                        0 <= i < final(self)@.len() && (#[trigger] old(self)@[i]).id != id
                            ==> final(self)@[i] == old(self)@[i])
                    &&& (forall|i: int|
                        0 <= i < final(self)@.len() && (#[trigger] old(self)@[i]).id == id
                            ==> final(self)@[i] == spec_toggled_record(old(self)@[i], now)
                            && spec_on_cadence_requires_anchor(old(self)@[i]))
                    &&& statuses@.len() == final(self)@.len()
                    &&& (forall|i: int|
                        0 <= i < final(self)@.len() ==> status_matches(
                            final(self)@[i],
                            now,
                            #[trigger] statuses@[i],
                        ))
                },
                Err(e) => match e {
                    AppError::NotFound => !spec_contains_id(old(self)@, id) && final(self)@
                        == old(self)@,
                    AppError::InvariantViolation => final(self)@ == old(self)@ && (exists|i: int|
                        0 <= i < final(self)@.len() && (#[trigger] final(self)@[i]).id == id
                            && !spec_on_cadence_requires_anchor(final(self)@[i])),
                    AppError::StorageFailure => false,
                },
            },
    {
        let i = match self.find_index(id) {
            Some(i) => i,
            None => {
                return Err(AppError::NotFound);
            },
        };
        let plan = match toggle_plan(&self.records[i], now) {
            Ok(p) => p,
            Err(e) => {
                return Err(e);
            },
        };
        match plan.schedule_write {
            Some(sw) => {
                match self.write_schedule(id, sw.schedule, sw.anchor) {
                    Ok(_) => {},
                    Err(e) => {
                        return Err(e);
                    },
                }
            },
            None => {},
        }
        match self.write_anchor(id, plan.new_anchor) {
            Ok(_) => {},
            Err(e) => {
                return Err(e);
            },
        }
        Ok(self.list_with_status(now))
    }
}

} // verus!
