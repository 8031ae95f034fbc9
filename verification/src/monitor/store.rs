use vstd::prelude::*;

use std::collections::BTreeMap;

use crate::data_type::DayData;
use crate::monitor::calendar::civil_of_day;
use crate::monitor::day_id::{day_id_spec, to_day_id, DayId, MINIMAL_VALID_YEAR};

verus! {

broadcast use vstd::laws_cmp::group_laws_cmp;

/// Ordered mapping from day key to that day's bucket.
pub type DayDataTable = BTreeMap<DayId, DayData>;

/// The store key of the given day number: the packed id of its civil date,
/// or nothing for days whose year is before the codec's minimum.
pub open spec fn day_key_of(day: int) -> Option<DayId> {
    if civil_of_day(day).0 < MINIMAL_VALID_YEAR as int {
        None
    } else {
        Some(day_id_spec(civil_of_day(day).0, civil_of_day(day).1, civil_of_day(day).2))
    }
}

/// The day-bucket store: one `DayData` per sampled calendar day, keyed by
/// the packed day id, created lazily and never evicted.
pub struct Storage {
    day_data_table: DayDataTable,
}

impl Storage {
    /// The stored day buckets, by key.
    pub closed spec fn table(&self) -> Map<DayId, DayData> {
        self.day_data_table@
    }

    /// Every stored bucket keeps the four-equal-arrays shape.
    pub open spec fn well_formed(&self) -> bool {
        forall|k: DayId| #[trigger]
            self.table().contains_key(k) ==> self.table()[k].well_formed()
    }

    /// Adopt an existing table, as rebuilt after a restart boundary.
    pub fn init(day_data_table: DayDataTable) -> (r: Self)
        ensures
            r.table() == day_data_table@,
    {
        Self { day_data_table }
    }

    /// Borrow the whole table, as exported across a restart boundary.
    pub fn get_day_data_table(&self) -> (r: &DayDataTable)
        ensures
            r@ == self.table(),
    {
        &self.day_data_table
    }

    /// Look up the bucket of a civil date; a date the codec rejects reads as
    /// "no such day".
    pub fn get_day_data_info(&self, year: &i32, month: &u32, day: &u32) -> (r: Option<&DayData>)
        ensures
            (match r {
                Some(b) => {
                    &&& *year >= MINIMAL_VALID_YEAR
                    &&& self.table().contains_key(day_id_spec(*year as int, *month, *day))
                    &&& *b == self.table()[day_id_spec(*year as int, *month, *day)]
                },
                None => *year < MINIMAL_VALID_YEAR || !self.table().contains_key(
                    day_id_spec(*year as int, *month, *day),
                ),
            }),
    {
        match to_day_id(year, month, day) {
            Ok(day_id) => self.day_data_table.get(&day_id),
            Err(_) => None,
        }
    }

    /// Create or replace the bucket of a civil date; a date the codec
    /// rejects leaves the store untouched.
    pub fn store_day_data(&mut self, year: &i32, month: &u32, day: &u32, day_data: DayData)
        ensures
            *year >= MINIMAL_VALID_YEAR ==> final(self).table() == old(self).table().insert(
                day_id_spec(*year as int, *month, *day),
                day_data,
            ),
            *year < MINIMAL_VALID_YEAR ==> final(self).table() == old(self).table(),
            old(self).well_formed() && day_data.well_formed() ==> final(self).well_formed(),
    {
        match to_day_id(year, month, day) {
            Ok(day_id) => {
                self.day_data_table.insert(day_id, day_data);
                proof {
                    if old(self).well_formed() && day_data.well_formed() {
                        assert forall|k2: DayId| #[trigger]
                            self.table().contains_key(k2) implies self.table()[k2].well_formed() by {
                            if k2 != day_id {
                                assert(old(self).table().contains_key(k2));
                            }
                        }
                    }
                }
            },
            Err(_) => {},
        }
    }
}

impl Default for Storage {
    /// An empty store.
    fn default() -> (r: Self)
        ensures
            r.table() == Map::<DayId, DayData>::empty(),
    {
        Storage { day_data_table: BTreeMap::new() }
    }
}

} // verus!
