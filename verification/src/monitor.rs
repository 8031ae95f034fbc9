//! Calendar-day-bucketed numeric metrics: per-day sample buckets keyed by a
//! compact day identifier, a collector that files incoming samples, and a
//! calculator that reconstructs hourly or daily projections.

pub mod calculator;
pub mod calendar;
pub mod collector;
pub mod day_id;
pub mod day_iterator;
pub mod store;

use vstd::prelude::*;

use crate::api_type::{
    CanisterMetrics, CollectMetricsRequestType, GetMetricsParameters, StatusRequest,
    StatusResponse, UpdateInformationRequest,
};
use crate::monitor::collector::{collect_canister_metrics, collect_outcome, CanisterInfo};
use crate::monitor::store::{DayDataTable, Storage};

verus! {

/// Format version of the exported stable data.
pub const VERSION: u8 = 1;

/// What is exported across a restart boundary: the format version and the
/// whole day-data table.
pub type PreUpgradeStableData<'a> = (&'a u8, &'a DayDataTable);

/// What comes back across a restart boundary.
pub type PostUpgradeStableData = (u8, DayDataTable);

/// Snapshot the store for export, tagged with the format version.
pub fn pre_upgrade_stable_data<'a>(storage: &'a Storage) -> (r: PreUpgradeStableData<'a>)
    ensures
        *r.0 == VERSION,
        r.1@ == storage.table(),
{
    (&VERSION, storage.get_day_data_table())
}

/// Re-hydrate the store from exported data; data of another format version
/// is skipped rather than restored.
pub fn post_upgrade_stable_data(data: PostUpgradeStableData) -> (r: Option<Storage>)
    ensures
        r is Some <==> data.0 == VERSION,
        (match r {
            Some(storage) => storage.table() == data.1@,
            None => true,
        }),
{
    let (version, day_data_table) = data;
    if version == VERSION {
        Some(Storage::init(day_data_table))
    } else {
        None
    }
}

/// Collect one sample in the mode the request names, or do nothing when it
/// names none.
pub fn update_information<F: Fn() -> CanisterInfo>(
    storage: &mut Storage,
    time_nanos: u64,
    request: &UpdateInformationRequest,
    canister_info_supplier: F,
)
    requires
        old(storage).well_formed(),
        call_requires(canister_info_supplier, ()),
    ensures
        final(storage).well_formed(),
        (match request.metrics {
            Some(mode) => collect_outcome(
                canister_info_supplier,
                old(storage).table(),
                final(storage).table(),
                time_nanos,
                mode is force,
            ),
            None => final(storage).table() == old(storage).table(),
        }),
{
    match &request.metrics {
        Some(CollectMetricsRequestType::normal) => {
            collect_canister_metrics(storage, time_nanos, false, canister_info_supplier);
        },
        Some(CollectMetricsRequestType::force) => {
            collect_canister_metrics(storage, time_nanos, true, canister_info_supplier);
        },
        None => {},
    }
}

/// Collect one sample, never forcing an overwrite.
pub fn collect_metrics<F: Fn() -> CanisterInfo>(
    storage: &mut Storage,
    time_nanos: u64,
    canister_info_supplier: F,
)
    requires
        old(storage).well_formed(),
        call_requires(canister_info_supplier, ()),
    ensures
        final(storage).well_formed(),
        collect_outcome(
            canister_info_supplier,
            old(storage).table(),
            final(storage).table(),
            time_nanos,
            false,
        ),
{
    collect_canister_metrics(storage, time_nanos, false, canister_info_supplier);
}

/// Answer a metrics query, `None` on a reversed range.
pub fn get_metrics(parameters: &GetMetricsParameters, storage: &Storage) -> (r: Option<
    CanisterMetrics,
>)
    ensures
        parameters.dateFromMillis > parameters.dateToMillis <==> r is None,
        (match r {
            Some(metrics) => calculator::metrics_data_matches(
                storage.table(),
                *parameters,
                metrics.data,
            ),
            None => true,
        }),
{
    match calculator::get_canister_metrics(parameters, storage) {
        Ok(data) => Some(CanisterMetrics { data }),
        Err(_) => None,
    }
}

/// The status response owed to a request: each field present exactly when
/// requested, carrying the corresponding current value.
pub open spec fn status_spec(
    request: StatusRequest,
    cycles: u64,
    memory_size: u64,
    heap_memory_size: u64,
) -> StatusResponse {
    StatusResponse {
        cycles: if request.cycles {
            Some(cycles)
        } else {
            None
        },
        memory_size: if request.memory_size {
            Some(memory_size)
        } else {
            None
        },
        heap_memory_size: if request.heap_memory_size {
            Some(heap_memory_size)
        } else {
            None
        },
    }
}

/// Assemble a point-in-time status response from the requested subset of
/// the three current values.
pub fn get_status(
    request: StatusRequest,
    cycles: u64,
    memory_size: u64,
    heap_memory_size: u64,
) -> (r: StatusResponse)
    ensures
        r == status_spec(request, cycles, memory_size, heap_memory_size),
{
    StatusResponse {
        cycles: if request.cycles {
            Some(cycles)
        } else {
            None
        },
        memory_size: if request.memory_size {
            Some(memory_size)
        } else {
            None
        },
        heap_memory_size: if request.heap_memory_size {
            Some(heap_memory_size)
        } else {
            None
        },
    }
}

} // verus!
