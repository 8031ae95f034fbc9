use vstd::prelude::*;

use vstd::arithmetic::div_mod::{lemma_div_is_ordered, lemma_div_multiples_vanish};

use crate::api_type::{
    CanisterMetricsData, DailyMetricsData, GetMetricsParameters, HourlyMetricsData,
    MetricsGranularity, NumericEntity,
};
use crate::data_type::DayData;
use crate::monitor::calendar::{civil_date_of_day, MAX_CIVIL_DAY, MILLIS_PER_DAY};
use crate::monitor::day_id::DayId;
use crate::monitor::day_iterator::DayIterator;
use crate::monitor::store::{day_key_of, Storage};

verus! {

/// At most this many days are consumed for an hourly query.
pub const HOURLY_MAX_DAYS: usize = 9;

/// At most this many days are consumed for a daily query.
pub const DAILY_MAX_DAYS: usize = 365;

/// Greatest cell value, zero cells included; zero for an empty array.
pub open spec fn seq_max(s: Seq<u64>) -> int
    decreases s.len(),
{
    if s.len() == 0 {
        0
    } else {
        let rest = seq_max(s.drop_last());
        if s.last() > rest {
            s.last() as int
        } else {
            rest
        }
    }
}

/// Least cell value among cells holding a positive value; zero when no cell
/// does.
pub open spec fn seq_min_positive(s: Seq<u64>) -> int
    decreases s.len(),
{
    if s.len() == 0 {
        0
    } else {
        let rest = seq_min_positive(s.drop_last());
        if s.last() == 0 {
            rest
        } else if rest == 0 || s.last() < rest {
            s.last() as int
        } else {
            rest
        }
    }
}

/// Sum of the cells holding a positive value.
pub open spec fn seq_sum_positive(s: Seq<u64>) -> int
    decreases s.len(),
{
    if s.len() == 0 {
        0
    } else {
        seq_sum_positive(s.drop_last()) + if s.last() > 0 {
            s.last() as int
        } else {
            0
        }
    }
}

/// Number of cells holding a positive value.
pub open spec fn seq_count_positive(s: Seq<u64>) -> int
    decreases s.len(),
{
    if s.len() == 0 {
        0
    } else {
        seq_count_positive(s.drop_last()) + if s.last() > 0 {
            1int
        } else {
            0int
        }
    }
}

/// Sum of all cells.
pub open spec fn seq_sum(s: Seq<u64>) -> int
    decreases s.len(),
{
    if s.len() == 0 {
        0
    } else {
        seq_sum(s.drop_last()) + s.last()
    }
}

/// The reduced daily summary of one array: max over all cells, min and
/// average over the positive cells (zero when there is none), and the raw
/// first and last cell.
pub open spec fn numeric_entity_spec(s: Seq<u64>) -> NumericEntity {
    NumericEntity {
        avg: if seq_count_positive(s) > 0 {
            (seq_sum_positive(s) / seq_count_positive(s)) as u64
        } else {
            0
        },
        first: if s.len() > 0 {
            s[0]
        } else {
            0
        },
        last: if s.len() > 0 {
            s.last()
        } else {
            0
        },
        max: seq_max(s) as u64,
        min: seq_min_positive(s) as u64,
    }
}

/// Counts and sums over a prefix stay within linear bounds of its length.
proof fn lemma_positive_bounds(s: Seq<u64>)
    ensures
        0 <= seq_count_positive(s) <= s.len(),
        0 <= seq_sum_positive(s) <= seq_count_positive(s) * 0xFFFF_FFFF_FFFF_FFFF,
        0 <= seq_max(s) <= 0xFFFF_FFFF_FFFF_FFFF,
        0 <= seq_min_positive(s) <= 0xFFFF_FFFF_FFFF_FFFF,
        0 <= seq_sum(s) <= s.len() * 0xFFFF_FFFF_FFFF_FFFF,
    decreases s.len(),
{
    if s.len() > 0 {
        lemma_positive_bounds(s.drop_last());
    }
}

/// A prefix one longer splits into the shorter prefix plus the next element.
proof fn lemma_take_step(s: Seq<u64>, i: int)
    requires
        0 <= i < s.len(),
    ensures
        s.take(i + 1).drop_last() == s.take(i),
        s.take(i + 1).last() == s[i],
{
    assert(s.take(i + 1).drop_last() =~= s.take(i));
}

/// An all-zero array reduces to the all-zero summary.
pub proof fn lemma_zero_day_reduces_to_zero(s: Seq<u64>)
    requires
        forall|i: int| 0 <= i < s.len() ==> s[i] == 0,
    ensures
        numeric_entity_spec(s) == (NumericEntity { avg: 0, first: 0, last: 0, max: 0, min: 0 }),
    decreases s.len(),
{
    if s.len() > 0 {
        lemma_zero_day_reduces_to_zero(s.drop_last());
    }
}

/// Reduce one array to its daily summary.
pub fn calculate_numeric_metrics_entity(arr: &Vec<u64>) -> (r: NumericEntity)
    ensures
        r == numeric_entity_spec(arr@),
{
    let array_size: usize = arr.len();

    let mut sum_for_avg: u128 = 0;
    let mut count_for_avg: u64 = 0;
    let mut min: u64 = 0;
    let mut max: u64 = 0;
    let mut first: u64 = 0;
    let mut last: u64 = 0;
    let mut avg: u64 = 0;

    if array_size > 0 {
        first = arr[0];
        last = arr[array_size - 1];
    }

    let mut i: usize = 0;
    while i < array_size
        invariant
            0 <= i <= array_size,
            array_size == arr@.len(),
            max as int == seq_max(arr@.take(i as int)),
            min as int == seq_min_positive(arr@.take(i as int)),
            sum_for_avg as int == seq_sum_positive(arr@.take(i as int)),
            count_for_avg as int == seq_count_positive(arr@.take(i as int)),
        decreases array_size - i,
    {
        let value: u64 = arr[i];
        proof {
            lemma_take_step(arr@, i as int);
            lemma_positive_bounds(arr@.take(i as int));
        }

        if value > max {
            max = value;
        }
        if value > 0 {
            if min == 0 || value < min {
                min = value;
            }
            sum_for_avg = sum_for_avg + (value as u128);
            count_for_avg = count_for_avg + 1;
        }
        i = i + 1;
    }

    proof {
        assert(arr@.take(array_size as int) =~= arr@);
        lemma_positive_bounds(arr@);
    }

    if count_for_avg > 0 {
        proof {
            lemma_div_is_ordered(
                sum_for_avg as int,
                count_for_avg as int * 0xFFFF_FFFF_FFFF_FFFF,
                count_for_avg as int,
            );
            lemma_div_multiples_vanish(0xFFFF_FFFF_FFFF_FFFF, count_for_avg as int);
        }
        avg = (sum_for_avg / (count_for_avg as u128)) as u64;
    }

    NumericEntity { avg, first, last, max, min }
}

/// The sum of all cells, capped at the widest representable count.
pub open spec fn capped_sum(s: Seq<u64>) -> int {
    if seq_sum(s) > u64::MAX {
        u64::MAX as int
    } else {
        seq_sum(s)
    }
}

/// Sum one array, sticking at the maximum rather than wrapping.
fn sum_capped_u64(arr: &Vec<u64>) -> (r: u64)
    ensures
        r as int == capped_sum(arr@),
{
    let mut sum: u128 = 0;
    let mut i: usize = 0;
    while i < arr.len()
        invariant
            0 <= i <= arr@.len(),
            sum as int == seq_sum(arr@.take(i as int)),
        decreases arr@.len() - i,
    {
        proof {
            lemma_take_step(arr@, i as int);
            lemma_positive_bounds(arr@.take(i as int));
        }
        sum = sum + (arr[i] as u128);
        i = i + 1;
    }
    proof {
        assert(arr@.take(arr@.len() as int) =~= arr@);
    }
    if sum > (u64::MAX as u128) {
        u64::MAX
    } else {
        sum as u64
    }
}

/// A day number the store can answer for: non-negative, within the
/// calendar conversion's range, with an encodable year, and present in the
/// table.
pub open spec fn day_has_data(m: Map<DayId, DayData>, day: int) -> bool {
    &&& 0 <= day <= MAX_CIVIL_DAY
    &&& day_key_of(day) is Some
    &&& m.contains_key(day_key_of(day).unwrap())
}

/// The day numbers a query emits: walking from `day` down to `lo`, over at
/// most `left` days, those present in the store, newest first.
pub open spec fn emitted_days(m: Map<DayId, DayData>, day: int, lo: int, left: nat) -> Seq<int>
    decreases left,
{
    if left == 0 || day < lo {
        Seq::empty()
    } else {
        let rest = emitted_days(m, day - 1, lo, (left - 1) as nat);
        if day_has_data(m, day) {
            seq![day] + rest
        } else {
            rest
        }
    }
}

/// The walk emits no more days than it consumes, and no more than the range
/// holds.
pub proof fn lemma_emitted_days_len(m: Map<DayId, DayData>, day: int, lo: int, left: nat)
    ensures
        emitted_days(m, day, lo, left).len() <= left,
        emitted_days(m, day, lo, left).len() <= if day < lo {
            0int
        } else {
            day - lo + 1
        },
    decreases left,
{
    if left != 0 && day >= lo {
        lemma_emitted_days_len(m, day - 1, lo, (left - 1) as nat);
    }
}

/// A range within one day emits at most one projection, however many days
/// the walk may consume.
pub proof fn lemma_single_day_at_most_one(m: Map<DayId, DayData>, day: int, left: nat)
    ensures
        emitted_days(m, day, day, left).len() <= 1,
{
    lemma_emitted_days_len(m, day, day, left);
}

/// The hourly projections `out` render exactly the buckets of `days`: the
/// day's start instant and its four raw arrays, verbatim.
pub open spec fn hourly_matches(
    m: Map<DayId, DayData>,
    days: Seq<int>,
    out: Seq<HourlyMetricsData>,
) -> bool {
    &&& out.len() == days.len()
    &&& forall|i: int|
        #![trigger days[i]]
        0 <= i < days.len() ==> {
            let b = m[day_key_of(days[i]).unwrap()];
            &&& out[i].timeMillis as int == days[i] * MILLIS_PER_DAY as int
            &&& out[i].canisterCycles@ == b.cycles()
            &&& out[i].canisterHeapMemorySize@ == b.heap_memory_size()
            &&& out[i].canisterMemorySize@ == b.memory_size()
            &&& out[i].updateCalls@ == b.update_calls()
        }
}

/// The daily projections `out` render exactly the buckets of `days`: the
/// day's start instant, the capped call-count sum, and the reduced summary
/// of each resource array.
pub open spec fn daily_matches(
    m: Map<DayId, DayData>,
    days: Seq<int>,
    out: Seq<DailyMetricsData>,
) -> bool {
    &&& out.len() == days.len()
    &&& forall|i: int|
        #![trigger days[i]]
        0 <= i < days.len() ==> {
            let b = m[day_key_of(days[i]).unwrap()];
            &&& out[i].timeMillis as int == days[i] * MILLIS_PER_DAY as int
            &&& out[i].canisterCycles == numeric_entity_spec(b.cycles())
            &&& out[i].canisterHeapMemorySize == numeric_entity_spec(b.heap_memory_size())
            &&& out[i].canisterMemorySize == numeric_entity_spec(b.memory_size())
            &&& out[i].updateCalls as int == capped_sum(b.update_calls())
        }
}

/// Copy one metric array out of a bucket.
fn clone_metric_array(arr: &Vec<u64>) -> (r: Vec<u64>)
    ensures
        r@ == arr@,
{
    let r = arr.clone();
    assert(r@ =~= arr@);
    r
}

/// The rendered projections `data` are exactly what a query over
/// `parameters` reads out of the table `m`: its granularity's bounded
/// newest-first day walk, one projection per day present in the store.
pub open spec fn metrics_data_matches(
    m: Map<DayId, DayData>,
    parameters: GetMetricsParameters,
    data: CanisterMetricsData,
) -> bool {
    let lo = parameters.dateFromMillis as int / MILLIS_PER_DAY as int;
    let hi = parameters.dateToMillis as int / MILLIS_PER_DAY as int;
    match data {
        CanisterMetricsData::hourly(v) => parameters.granularity is hourly && hourly_matches(
            m,
            emitted_days(m, hi, lo, HOURLY_MAX_DAYS as nat),
            v@,
        ),
        CanisterMetricsData::daily(v) => parameters.granularity is daily && daily_matches(
            m,
            emitted_days(m, hi, lo, DAILY_MAX_DAYS as nat),
            v@,
        ),
    }
}

/// Answer a metrics query: walk the days of `[dateFromMillis, dateToMillis]`
/// newest first, capped per granularity, and render each day present in the
/// store; days absent from the store are omitted. Fails exactly when the
/// range is reversed.
pub fn get_canister_metrics(parameters: &GetMetricsParameters, storage: &Storage) -> (r: Result<
    CanisterMetricsData,
    &'static str,
>)
    ensures
        parameters.dateFromMillis > parameters.dateToMillis <==> r is Err,
        (match r {
            Ok(data) => metrics_data_matches(storage.table(), *parameters, data),
            Err(_) => true,
        }),
{
    let date_from: u64 = parameters.dateFromMillis;
    let date_to: u64 = parameters.dateToMillis;
    let mut iterator = match DayIterator::new_reverse(date_from, date_to) {
        Ok(it) => it,
        Err(e) => {
            return Err(e);
        },
    };
    let ghost m = storage.table();
    let ghost lo: int = iterator.low_day();
    let ghost hi: int = iterator.next_day();

    match parameters.granularity {
        MetricsGranularity::hourly => {
            let mut out: Vec<HourlyMetricsData> = Vec::new();
            let ghost mut acc_days: Seq<int> = Seq::empty();
            let mut taken: usize = 0;
            let mut finished: bool = false;
            proof {
                assert(acc_days + emitted_days(m, hi, lo, HOURLY_MAX_DAYS as nat) =~= emitted_days(
                    m,
                    hi,
                    lo,
                    HOURLY_MAX_DAYS as nat,
                ));
            }
            while taken < HOURLY_MAX_DAYS && !finished
                invariant
                    storage.table() == m,
                    iterator.well_formed(),
                    iterator.low_day() == lo,
                    0 <= lo,
                    taken <= HOURLY_MAX_DAYS,
                    finished ==> iterator.next_day() < lo,
                    emitted_days(m, hi, lo, HOURLY_MAX_DAYS as nat) == acc_days + emitted_days(
                        m,
                        iterator.next_day(),
                        lo,
                        (HOURLY_MAX_DAYS - taken) as nat,
                    ),
                    hourly_matches(m, acc_days, out@),
                decreases 2 * (HOURLY_MAX_DAYS - taken) + (if finished {
                    0int
                } else {
                    1int
                }),
            {
                let ghost prev_day: int = iterator.next_day();
                let ghost left: nat = (HOURLY_MAX_DAYS - taken) as nat;
                proof {
                    iterator.lemma_next_day_millis_bound();
                }
                match iterator.next() {
                    None => {
                        finished = true;
                    },
                    Some(day_start_millis) => {
                        proof {
                            lemma_div_multiples_vanish(prev_day, MILLIS_PER_DAY as int);
                        }
                        let day_number: u64 = day_start_millis / MILLIS_PER_DAY;
                        assert(day_number as int == prev_day);
                        let ghost head: Seq<int> = if day_has_data(m, prev_day) {
                            seq![prev_day]
                        } else {
                            Seq::empty()
                        };
                        if day_number <= MAX_CIVIL_DAY {
                            let (year, month, day_of_month) = civil_date_of_day(day_number);
                            match storage.get_day_data_info(&year, &month, &day_of_month) {
                                Some(day_data) => {
                                    proof {
                                        assert(day_has_data(m, prev_day));
                                    }
                                    let entry = HourlyMetricsData {
                                        timeMillis: day_start_millis,
                                        canisterCycles: clone_metric_array(
                                            day_data.get_canister_cycles_data(),
                                        ),
                                        canisterHeapMemorySize: clone_metric_array(
                                            day_data.get_canister_heap_memory_size_data(),
                                        ),
                                        canisterMemorySize: clone_metric_array(
                                            day_data.get_canister_memory_size_data(),
                                        ),
                                        updateCalls: clone_metric_array(
                                            day_data.get_update_calls_data(),
                                        ),
                                    };
                                    out.push(entry);
                                    proof {
                                        let prev_acc = acc_days;
                                        acc_days = acc_days + head;
                                        assert forall|i: int|
                                            0 <= i < acc_days.len() implies {
                                            let b = m[day_key_of(acc_days[i]).unwrap()];
                                            &&& out@[i].timeMillis as int == #[trigger] acc_days[i]
                                                * MILLIS_PER_DAY as int
                                            &&& out@[i].canisterCycles@ == b.cycles()
                                            &&& out@[i].canisterHeapMemorySize@
                                                == b.heap_memory_size()
                                            &&& out@[i].canisterMemorySize@ == b.memory_size()
                                            &&& out@[i].updateCalls@ == b.update_calls()
                                        } by {
                                            if i < prev_acc.len() {
                                                assert(acc_days[i] == prev_acc[i]);
                                            }
                                        }
                                    }
                                },
                                None => {
                                    proof {
                                        assert(!day_has_data(m, prev_day));
                                        acc_days = acc_days + head;
                                        assert(acc_days + Seq::<int>::empty() =~= acc_days);
                                    }
                                },
                            }
                        } else {
                            proof {
                                assert(!day_has_data(m, prev_day));
                                acc_days = acc_days + head;
                            }
                        }
                        taken = taken + 1;
                        proof {
                            assert(emitted_days(m, prev_day, lo, left) == head + emitted_days(
                                m,
                                prev_day - 1,
                                lo,
                                (left - 1) as nat,
                            ));
                            assert(acc_days + emitted_days(
                                m,
                                prev_day - 1,
                                lo,
                                (left - 1) as nat,
                            ) =~= emitted_days(m, hi, lo, HOURLY_MAX_DAYS as nat));
                        }
                    },
                }
            }
            proof {
                assert(emitted_days(m, iterator.next_day(), lo, (HOURLY_MAX_DAYS - taken) as nat)
                    =~= Seq::<int>::empty());
                assert(acc_days =~= emitted_days(m, hi, lo, HOURLY_MAX_DAYS as nat));
            }
            Ok(CanisterMetricsData::hourly(out))
        },
        MetricsGranularity::daily => {
            let mut out: Vec<DailyMetricsData> = Vec::new();
            let ghost mut acc_days: Seq<int> = Seq::empty();
            let mut taken: usize = 0;
            let mut finished: bool = false;
            proof {
                assert(acc_days + emitted_days(m, hi, lo, DAILY_MAX_DAYS as nat) =~= emitted_days(
                    m,
                    hi,
                    lo,
                    DAILY_MAX_DAYS as nat,
                ));
            }
            while taken < DAILY_MAX_DAYS && !finished
                invariant
                    storage.table() == m,
                    iterator.well_formed(),
                    iterator.low_day() == lo,
                    0 <= lo,
                    taken <= DAILY_MAX_DAYS,
                    finished ==> iterator.next_day() < lo,
                    emitted_days(m, hi, lo, DAILY_MAX_DAYS as nat) == acc_days + emitted_days(
                        m,
                        iterator.next_day(),
                        lo,
                        (DAILY_MAX_DAYS - taken) as nat,
                    ),
                    daily_matches(m, acc_days, out@),
                decreases 2 * (DAILY_MAX_DAYS - taken) + (if finished {
                    0int
                } else {
                    1int
                }),
            {
                let ghost prev_day: int = iterator.next_day();
                let ghost left: nat = (DAILY_MAX_DAYS - taken) as nat;
                proof {
                    iterator.lemma_next_day_millis_bound();
                }
                match iterator.next() {
                    None => {
                        finished = true;
                    },
                    Some(day_start_millis) => {
                        proof {
                            lemma_div_multiples_vanish(prev_day, MILLIS_PER_DAY as int);
                        }
                        let day_number: u64 = day_start_millis / MILLIS_PER_DAY;
                        assert(day_number as int == prev_day);
                        let ghost head: Seq<int> = if day_has_data(m, prev_day) {
                            seq![prev_day]
                        } else {
                            Seq::empty()
                        };
                        if day_number <= MAX_CIVIL_DAY {
                            let (year, month, day_of_month) = civil_date_of_day(day_number);
                            match storage.get_day_data_info(&year, &month, &day_of_month) {
                                Some(day_data) => {
                                    proof {
                                        assert(day_has_data(m, prev_day));
                                    }
                                    let entry = DailyMetricsData {
                                        timeMillis: day_start_millis,
                                        canisterCycles: calculate_numeric_metrics_entity(
                                            day_data.get_canister_cycles_data(),
                                        ),
                                        canisterHeapMemorySize: calculate_numeric_metrics_entity(
                                            day_data.get_canister_heap_memory_size_data(),
                                        ),
                                        canisterMemorySize: calculate_numeric_metrics_entity(
                                            day_data.get_canister_memory_size_data(),
                                        ),
                                        updateCalls: sum_capped_u64(
                                            day_data.get_update_calls_data(),
                                        ),
                                    };
                                    out.push(entry);
                                    proof {
                                        let prev_acc = acc_days;
                                        acc_days = acc_days + head;
                                        assert forall|i: int|
                                            0 <= i < acc_days.len() implies {
                                            let b = m[day_key_of(acc_days[i]).unwrap()];
                                            &&& out@[i].timeMillis as int == #[trigger] acc_days[i]
                                                * MILLIS_PER_DAY as int
                                            &&& out@[i].canisterCycles == numeric_entity_spec(
                                                b.cycles(),
                                            )
                                            &&& out@[i].canisterHeapMemorySize
                                                == numeric_entity_spec(b.heap_memory_size())
                                            &&& out@[i].canisterMemorySize == numeric_entity_spec(
                                                b.memory_size(),
                                            )
                                            &&& out@[i].updateCalls as int == capped_sum(
                                                b.update_calls(),
                                            )
                                        } by {
                                            if i < prev_acc.len() {
                                                assert(acc_days[i] == prev_acc[i]);
                                            }
                                        }
                                    }
                                },
                                None => {
                                    proof {
                                        assert(!day_has_data(m, prev_day));
                                        acc_days = acc_days + head;
                                        assert(acc_days + Seq::<int>::empty() =~= acc_days);
                                    }
                                },
                            }
                        } else {
                            proof {
                                assert(!day_has_data(m, prev_day));
                                acc_days = acc_days + head;
                            }
                        }
                        taken = taken + 1;
                        proof {
                            assert(emitted_days(m, prev_day, lo, left) == head + emitted_days(
                                m,
                                prev_day - 1,
                                lo,
                                (left - 1) as nat,
                            ));
                            assert(acc_days + emitted_days(
                                m,
                                prev_day - 1,
                                lo,
                                (left - 1) as nat,
                            ) =~= emitted_days(m, hi, lo, DAILY_MAX_DAYS as nat));
                        }
                    },
                }
            }
            proof {
                assert(emitted_days(m, iterator.next_day(), lo, (DAILY_MAX_DAYS - taken) as nat)
                    =~= Seq::<int>::empty());
                assert(acc_days =~= emitted_days(m, hi, lo, DAILY_MAX_DAYS as nat));
            }
            Ok(CanisterMetricsData::daily(out))
        },
    }
}

} // verus!
