//! Bounded in-process telemetry recorder: a fixed-capacity circular store of
//! timestamped log lines and a calendar-day-bucketed numeric metrics store,
//! together with the read-side calculators that page through the log and
//! reconstruct hourly or daily metric projections.

pub mod api_type;
pub mod data_type;
pub mod ic_util;
pub mod logger;
pub mod monitor;

use vstd::prelude::*;

use crate::api_type::{
    GetInformationRequest, GetInformationResponse, MetricsResponse, UpdateInformationRequest,
};
use crate::monitor::collector::{collect_outcome, CanisterInfo};

verus! {

/// Version reported to information requests.
pub const API_VERSION: u64 = 1;

/// Snapshot both stores for export across a restart boundary, each tagged
/// with its format version.
pub fn pre_upgrade_stable_data<'a>(
    monitor_storage: &'a monitor::store::Storage,
    logger_storage: &'a logger::store::Storage,
) -> (r: (monitor::PreUpgradeStableData<'a>, logger::PreUpgradeStableData<'a>))
    ensures
        *r.0.0 == monitor::VERSION,
        r.0.1@ == monitor_storage.table(),
        *r.1.0 == logger::VERSION,
        r.1.1 == logger_storage,
{
    (
        monitor::pre_upgrade_stable_data(monitor_storage),
        logger::pre_upgrade_stable_data(logger_storage),
    )
}

/// Re-hydrate both stores from an exported snapshot; a store whose version
/// tag does not match is skipped (`None`) rather than restored.
pub fn post_upgrade_stable_data(
    data: (monitor::PostUpgradeStableData, logger::PostUpgradeStableData),
) -> (r: (Option<monitor::store::Storage>, Option<logger::store::Storage>))
    ensures
        r.0 is Some <==> data.0.0 == monitor::VERSION,
        (match r.0 {
            Some(storage) => storage.table() == data.0.1@,
            None => true,
        }),
        r.1 is Some <==> data.1.0 == logger::VERSION,
        (match r.1 {
            Some(storage) => storage == data.1.1,
            None => true,
        }),
{
    let (monitor_data, logger_data) = data;
    (
        monitor::post_upgrade_stable_data(monitor_data),
        logger::post_upgrade_stable_data(logger_data),
    )
}

/// Apply an update request: collect a metrics sample in the requested mode,
/// or do nothing when no mode is requested.
pub fn update_information<F: Fn() -> CanisterInfo>(
    storage: &mut monitor::store::Storage,
    time_nanos: u64,
    request: &UpdateInformationRequest,
    canister_info_supplier: F,
)
    requires
        old(storage).well_formed(),
        call_requires(canister_info_supplier, ()),
    ensures
        final(storage).well_formed(),
        (match request.metrics {
            Some(mode) => collect_outcome(
                canister_info_supplier,
                old(storage).table(),
                final(storage).table(),
                time_nanos,
                mode is force,
            ),
            None => final(storage).table() == old(storage).table(),
        }),
{
    monitor::update_information(storage, time_nanos, request, canister_info_supplier)
}

/// Answer a combined read request: version, point-in-time status, metrics
/// projections and log pages, each present exactly when requested.
pub fn get_information(
    monitor_storage: &monitor::store::Storage,
    logger_storage: &logger::store::Storage,
    request: GetInformationRequest,
    cycles: u64,
    memory_size: u64,
    heap_memory_size: u64,
) -> (r: GetInformationResponse)
    requires
        logger_storage.well_formed(),
        logger_storage.messages().len() <= u32::MAX,
    ensures
        r.version == (if request.version {
            Some(API_VERSION)
        } else {
            None::<u64>
        }),
        r.status is Some <==> request.status is Some,
        (match (request.status, r.status) {
            (Some(req), Some(resp)) => resp == monitor::status_spec(
                req,
                cycles,
                memory_size,
                heap_memory_size,
            ),
            _ => true,
        }),
        r.metrics is Some <==> request.metrics is Some,
        (match (request.metrics, r.metrics) {
            (Some(req), Some(resp)) => {
                &&& resp.metrics is None <==> req.parameters.dateFromMillis
                    > req.parameters.dateToMillis
                &&& (match resp.metrics {
                    Some(metrics) => monitor::calculator::metrics_data_matches(
                        monitor_storage.table(),
                        req.parameters,
                        metrics.data,
                    ),
                    None => true,
                })
            },
            _ => true,
        }),
        logger::get_canister_log_post(logger_storage.messages(), request.logs, r.logs),
{
    let version: Option<u64> = if request.version {
        Some(API_VERSION)
    } else {
        None
    };
    let status = match request.status {
        Some(status_request) => Some(
            monitor::get_status(status_request, cycles, memory_size, heap_memory_size),
        ),
        None => None,
    };
    let metrics = match request.metrics {
        Some(metrics_request) => Some(
            MetricsResponse {
                metrics: monitor::get_metrics(&metrics_request.parameters, monitor_storage),
            },
        ),
        None => None,
    };
    let logs = logger::get_canister_log(logger_storage, request.logs);
    GetInformationResponse { version, status, metrics, logs }
}

} // verus!
