use vstd::prelude::*;

use crate::data_type::{bump, DayData, DAY_SECONDS};
use crate::monitor::calendar::{
    civil_date_of_day, MAX_CIVIL_DAY, NANOS_PER_DAY, NANOS_PER_SECOND, SECONDS_PER_DAY,
};
use crate::monitor::day_id::DayId;
use crate::monitor::store::{day_key_of, Storage};

verus! {

/// Width of one bucket cell.
pub const INTERVAL_IN_SECONDS: usize = 300;

/// Cells per day at that width.
pub const DAY_CELL_COUNT: usize = DAY_SECONDS / INTERVAL_IN_SECONDS;

/// One point-in-time resource snapshot of the host.
#[derive(Debug, Clone, Copy, PartialEq, Eq, Structural)]
pub struct CanisterInfo {
    pub heap_memory_size: u64,
    pub memory_size: u64,
    pub cycles: u64,
}

/// Day number (days since the Unix epoch) of a nanosecond instant.
pub open spec fn day_of_nanos(time_nanos: u64) -> int {
    time_nanos as int / NANOS_PER_DAY as int
}

/// Second of its day of a nanosecond instant.
pub open spec fn second_of_day(time_nanos: u64) -> int {
    (time_nanos as int / NANOS_PER_SECOND as int) % SECONDS_PER_DAY as int
}

/// Bucket cell addressed by a nanosecond instant, in a day of `cell_count`
/// cells.
pub open spec fn cell_of_nanos(time_nanos: u64, cell_count: int) -> int {
    second_of_day(time_nanos) / (DAY_SECONDS as int / cell_count)
}

/// The bucket `new_b` is `old_b` with one cell freshly initialized: call
/// count one, the three resource values from the snapshot.
pub open spec fn cell_inited(old_b: DayData, new_b: DayData, cell: int, info: CanisterInfo) -> bool {
    &&& new_b.update_calls() == old_b.update_calls().update(cell, 1u64)
    &&& new_b.heap_memory_size() == old_b.heap_memory_size().update(cell, info.heap_memory_size)
    &&& new_b.memory_size() == old_b.memory_size().update(cell, info.memory_size)
    &&& new_b.cycles() == old_b.cycles().update(cell, info.cycles)
}

/// The bucket `new_b` is `old_b` with one more call counted in the cell and
/// the resource values untouched.
pub open spec fn cell_counted(old_b: DayData, new_b: DayData, cell: int) -> bool {
    &&& new_b.update_calls() == old_b.update_calls().update(
        cell,
        bump(old_b.update_calls()[cell]),
    )
    &&& new_b.heap_memory_size() == old_b.heap_memory_size()
    &&& new_b.memory_size() == old_b.memory_size()
    &&& new_b.cycles() == old_b.cycles()
}

/// An all-zero array of `cell_count` cells.
pub open spec fn zero_cells(cell_count: int) -> Seq<u64> {
    Seq::new(cell_count as nat, |i: int| 0u64)
}

/// The bucket `new_b` is a fresh all-zero day of `cell_count` cells with
/// one cell initialized from the snapshot.
pub open spec fn fresh_day_inited(
    new_b: DayData,
    cell_count: int,
    cell: int,
    info: CanisterInfo,
) -> bool {
    &&& new_b.update_calls() == zero_cells(cell_count).update(cell, 1u64)
    &&& new_b.heap_memory_size() == zero_cells(cell_count).update(cell, info.heap_memory_size)
    &&& new_b.memory_size() == zero_cells(cell_count).update(cell, info.memory_size)
    &&& new_b.cycles() == zero_cells(cell_count).update(cell, info.cycles)
}

/// A fresh sample is taken exactly when the instant's day key is encodable
/// and its cell has never been sampled, or the overwrite is forced.
pub open spec fn needs_fresh_sample(
    m: Map<DayId, DayData>,
    time_nanos: u64,
    force_set_info: bool,
) -> bool {
    match day_key_of(day_of_nanos(time_nanos)) {
        Some(k) => !m.contains_key(k) || force_set_info || m[k].update_calls()[cell_of_nanos(
            time_nanos,
            m[k].cell_count(),
        )] == 0,
        None => false,
    }
}

/// How the table changes when a fresh sample `info` is filed at
/// `time_nanos`: a new all-zero bucket with the addressed cell initialized,
/// or the existing bucket with that cell re-initialized.
pub open spec fn collect_sampled_post(
    old_m: Map<DayId, DayData>,
    new_m: Map<DayId, DayData>,
    time_nanos: u64,
    info: CanisterInfo,
) -> bool {
    match day_key_of(day_of_nanos(time_nanos)) {
        Some(k) => {
            &&& new_m.dom() == old_m.dom().insert(k)
            &&& forall|j: DayId| #[trigger]
                old_m.contains_key(j) && j != k ==> new_m[j] == old_m[j]
            &&& new_m.contains_key(k)
            &&& if old_m.contains_key(k) {
                cell_inited(
                    old_m[k],
                    new_m[k],
                    cell_of_nanos(time_nanos, old_m[k].cell_count()),
                    info,
                )
            } else {
                fresh_day_inited(
                    new_m[k],
                    DAY_CELL_COUNT as int,
                    cell_of_nanos(time_nanos, DAY_CELL_COUNT as int),
                    info,
                )
            }
        },
        None => false,
    }
}

/// How the table changes when no fresh sample is needed: one more call
/// counted in the addressed cell of the existing bucket.
pub open spec fn collect_counted_post(
    old_m: Map<DayId, DayData>,
    new_m: Map<DayId, DayData>,
    time_nanos: u64,
) -> bool {
    match day_key_of(day_of_nanos(time_nanos)) {
        Some(k) => {
            &&& old_m.contains_key(k)
            &&& new_m.dom() == old_m.dom()
            &&& forall|j: DayId| #[trigger]
                old_m.contains_key(j) && j != k ==> new_m[j] == old_m[j]
            &&& cell_counted(old_m[k], new_m[k], cell_of_nanos(time_nanos, old_m[k].cell_count()))
        },
        None => false,
    }
}

/// The whole observable effect of one collection: an instant whose year the
/// day-key codec rejects leaves the table untouched; otherwise a fresh
/// snapshot of the supplier is filed where one is needed, and the call is
/// merely counted where not.
pub open spec fn collect_outcome<F: Fn() -> CanisterInfo>(
    canister_info_supplier: F,
    old_m: Map<DayId, DayData>,
    new_m: Map<DayId, DayData>,
    time_nanos: u64,
    force_set_info: bool,
) -> bool {
    &&& day_key_of(day_of_nanos(time_nanos)) is None ==> new_m == old_m
    &&& day_key_of(day_of_nanos(time_nanos)) is Some ==> if needs_fresh_sample(
        old_m,
        time_nanos,
        force_set_info,
    ) {
        exists|info: CanisterInfo|
            {
                &&& #[trigger] call_ensures(canister_info_supplier, (), info)
                &&& collect_sampled_post(old_m, new_m, time_nanos, info)
            }
    } else {
        collect_counted_post(old_m, new_m, time_nanos)
    }
}

/// File one sample: create or update the bucket of the instant's calendar
/// day, initializing the addressed cell from one snapshot of the supplier
/// when it is fresh (or forced) and otherwise only counting the call. The
/// supplier is consulted at most once, and only when a fresh snapshot is
/// actually stored. An instant whose year the day-key codec rejects leaves
/// the store untouched.
pub fn collect_canister_metrics<F: Fn() -> CanisterInfo>(
    storage: &mut Storage,
    time_nanos: u64,
    force_set_info: bool,
    canister_info_supplier: F,
)
    requires
        old(storage).well_formed(),
        call_requires(canister_info_supplier, ()),
    ensures
        final(storage).well_formed(),
        collect_outcome(
            canister_info_supplier,
            old(storage).table(),
            final(storage).table(),
            time_nanos,
            force_set_info,
        ),
{
    let day_number: u64 = time_nanos / NANOS_PER_DAY;
    assert(day_number <= MAX_CIVIL_DAY);
    let (year, month, day) = civil_date_of_day(day_number);

    let existing: Option<DayData> = match storage.get_day_data_info(&year, &month, &day) {
        Some(day_data) => Some(day_data.clone()),
        None => None,
    };

    match existing {
        None => {
            let mut day_data = DayData::new(&DAY_CELL_COUNT);
            let cell = get_cell(&day_data, time_nanos);
            let canister_info = canister_info_supplier();
            init_cell(&mut day_data, &cell, canister_info);
            storage.store_day_data(&year, &month, &day, day_data);
            proof {
                if year >= 2000 {
                    assert(fresh_day_inited(
                        day_data,
                        DAY_CELL_COUNT as int,
                        cell as int,
                        canister_info,
                    ));
                    assert(storage.table().dom() =~= old(storage).table().dom().insert(
                        day_key_of(day_of_nanos(time_nanos)).unwrap(),
                    ));
                }
            }
        },
        Some(existing_day_data) => {
            let mut day_data = existing_day_data;
            let cell = get_cell(&day_data, time_nanos);
            if day_data.get_update_calls_data()[cell] == 0 || force_set_info {
                let canister_info = canister_info_supplier();
                init_cell(&mut day_data, &cell, canister_info);
                storage.store_day_data(&year, &month, &day, day_data);
                proof {
                    assert(storage.table().dom() =~= old(storage).table().dom().insert(
                        day_key_of(day_of_nanos(time_nanos)).unwrap(),
                    ));
                }
            } else {
                day_data.increment_update_calls(&cell);
                storage.store_day_data(&year, &month, &day, day_data);
                proof {
                    assert(storage.table().dom() =~= old(storage).table().dom());
                }
            }
        },
    }
}

/// Write one fresh snapshot into a cell: call count one plus the three
/// resource values.
fn init_cell(day_data: &mut DayData, cell: &usize, canister_info: CanisterInfo)
    requires
        old(day_data).well_formed(),
        *cell < old(day_data).cell_count(),
    ensures
        final(day_data).well_formed(),
        cell_inited(*old(day_data), *final(day_data), *cell as int, canister_info),
{
    day_data.store(
        cell,
        1,
        canister_info.heap_memory_size,
        canister_info.memory_size,
        canister_info.cycles,
    );
}

/// The bucket cell addressed by an instant, at the bucket's own resolution.
fn get_cell(day_data: &DayData, time_nanos: u64) -> (r: usize)
    requires
        day_data.well_formed(),
    ensures
        r == cell_of_nanos(time_nanos, day_data.cell_count()),
        r < day_data.cell_count(),
{
    let cell_count: usize = day_data.get_update_calls_data().len();
    proof {
        vstd::arithmetic::div_mod::lemma_div_non_zero(DAY_SECONDS as int, cell_count as int);
    }
    let seconds: u64 = (time_nanos / NANOS_PER_SECOND) % SECONDS_PER_DAY;
    let cell: usize = (seconds as usize) / (DAY_SECONDS / cell_count);
    assert(cell < cell_count && cell == cell_of_nanos(time_nanos, cell_count as int)) by (
    nonlinear_arith)
        requires
            1 <= cell_count <= DAY_SECONDS,
            DAY_SECONDS as int % cell_count as int == 0,
            seconds == (time_nanos as int / NANOS_PER_SECOND as int) % SECONDS_PER_DAY as int,
            cell == seconds as int / (DAY_SECONDS as int / cell_count as int),
            cell_of_nanos(time_nanos, cell_count as int) == second_of_day(time_nanos) / (
            DAY_SECONDS as int / cell_count as int),
            second_of_day(time_nanos) == (time_nanos as int / NANOS_PER_SECOND as int)
                % SECONDS_PER_DAY as int,
            DAY_SECONDS == 86_400usize,
            SECONDS_PER_DAY == 86_400u64,
            NANOS_PER_SECOND == 1_000_000_000u64,
    ;
    cell
}

} // verus!
