use vstd::prelude::*;

use crate::monitor::calendar::MILLIS_PER_DAY;

verus! {

/// Walks calendar days backward: yields the start instant (milliseconds
/// since the Unix epoch, truncated to 00:00:00 UTC) of each day from the one
/// containing `to_millis` down to the one containing `from_millis`, newest
/// first, both endpoints included.
pub struct DayIterator {
    from_day: u64,
    day: u64,
    done: bool,
}

impl DayIterator {
    /// Day number below which the walk stops.
    pub closed spec fn low_day(&self) -> int {
        self.from_day as int
    }

    /// Day number the next call yields; once it falls below `low_day` the
    /// iterator is exhausted.
    pub closed spec fn next_day(&self) -> int {
        if self.done {
            -1
        } else {
            self.day as int
        }
    }

    pub closed spec fn well_formed(&self) -> bool {
        self.day <= u64::MAX / MILLIS_PER_DAY
    }

    /// A well-formed iterator's next day start stays representable in
    /// milliseconds.
    pub proof fn lemma_next_day_millis_bound(&self)
        requires
            self.well_formed(),
        ensures
            self.next_day() * MILLIS_PER_DAY as int <= u64::MAX as int,
    {
        assert(self.next_day() * MILLIS_PER_DAY as int <= u64::MAX as int) by (nonlinear_arith)
            requires
                self.next_day() <= u64::MAX / MILLIS_PER_DAY,
                MILLIS_PER_DAY == 86_400_000u64,
        ;
    }

    /// Build a backward day walk over `[from_millis, to_millis]`; fails
    /// exactly when the range is reversed.
    pub fn new_reverse(from_millis: u64, to_millis: u64) -> (r: Result<DayIterator, &'static str>)
        ensures
            from_millis > to_millis <==> r is Err,
            (match r {
                Ok(it) => {
                    &&& it.well_formed()
                    &&& it.low_day() == from_millis / MILLIS_PER_DAY
                    &&& it.next_day() == to_millis / MILLIS_PER_DAY
                },
                Err(_) => true,
            }),
    {
        if from_millis > to_millis {
            return Err("From date more to date");
        }
        Ok(
            DayIterator {
                from_day: from_millis / MILLIS_PER_DAY,
                day: to_millis / MILLIS_PER_DAY,
                done: false,
            },
        )
    }

    /// Yield the start instant of the current day and step one day back, or
    /// `None` once the walk has passed `low_day`.
    pub fn next(&mut self) -> (r: Option<u64>)
        requires
            old(self).well_formed(),
        ensures
            final(self).well_formed(),
            final(self).low_day() == old(self).low_day(),
            (if old(self).next_day() < old(self).low_day() {
                r is None && final(self).next_day() == old(self).next_day()
            } else {
                &&& r == Some((old(self).next_day() * MILLIS_PER_DAY) as u64)
                &&& final(self).next_day() == old(self).next_day() - 1
            }),
    {
        if self.done || self.day < self.from_day {
            return None;
        }
        let d = self.day;
        if d == 0 {
            self.done = true;
        } else {
            self.day = d - 1;
        }
        assert(d * MILLIS_PER_DAY <= u64::MAX) by (nonlinear_arith)
            requires
                d <= u64::MAX / MILLIS_PER_DAY,
                MILLIS_PER_DAY == 86_400_000u64,
        ;
        Some(d * MILLIS_PER_DAY)
    }
}

} // verus!
