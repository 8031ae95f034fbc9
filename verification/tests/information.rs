use canistergeek_ic_rust::api_type::{
    CollectMetricsRequestType, GetInformationRequest, StatusRequest, UpdateInformationRequest,
};
use canistergeek_ic_rust::logger;
use canistergeek_ic_rust::monitor;
use canistergeek_ic_rust::monitor::collector::CanisterInfo;

#[test]
fn test_get_information_status_and_version() {
    let monitor_storage = monitor::store::Storage::default();
    let logger_storage = logger::store::Storage::new(4);

    let request = GetInformationRequest {
        version: true,
        status: Some(StatusRequest {
            cycles: true,
            memory_size: false,
            heap_memory_size: true,
        }),
        metrics: None,
        logs: None,
    };

    let response = canistergeek_ic_rust::get_information(
        &monitor_storage,
        &logger_storage,
        request,
        7,
        8,
        9,
    );
    assert_eq!(response.version, Some(1));
    let status = response.status.unwrap();
    assert_eq!(status.cycles, Some(7));
    assert_eq!(status.memory_size, None);
    assert_eq!(status.heap_memory_size, Some(9));
    assert!(response.metrics.is_none());
    assert!(response.logs.is_none());
}

#[test]
fn test_update_information_collects() {
    let mut storage = monitor::store::Storage::default();
    let base_nanos = 1643328000000_u64 * 1_000_000;

    let request = UpdateInformationRequest {
        metrics: Some(CollectMetricsRequestType::normal),
    };
    canistergeek_ic_rust::update_information(&mut storage, base_nanos, &request, || {
        CanisterInfo {
            heap_memory_size: 1,
            memory_size: 2,
            cycles: 3,
        }
    });
    assert_eq!(storage.get_day_data_table().len(), 1);

    let request = UpdateInformationRequest { metrics: None };
    canistergeek_ic_rust::update_information(&mut storage, base_nanos, &request, || {
        panic!("no collection was requested")
    });
    assert_eq!(storage.get_day_data_table().len(), 1);
}

#[test]
fn test_upgrade_round_trip() {
    let mut monitor_storage = monitor::store::Storage::default();
    let mut logger_storage = logger::store::Storage::new(4);
    logger::log_message(&mut logger_storage, String::from("before upgrade"));
    monitor::collect_metrics(&mut monitor_storage, 1643328000000_u64 * 1_000_000, || {
        CanisterInfo {
            heap_memory_size: 1,
            memory_size: 2,
            cycles: 3,
        }
    });

    let (monitor_data, logger_data) =
        canistergeek_ic_rust::pre_upgrade_stable_data(&monitor_storage, &logger_storage);
    let monitor_owned = (*monitor_data.0, monitor_data.1.clone());
    let logger_parts = logger_data.1.export_parts();
    let logger_owned = (
        *logger_data.0,
        logger::store::Storage::init(
            logger_parts.0.clone(),
            logger_parts.1,
            logger_parts.2,
            logger_parts.3,
        ),
    );

    let (restored_monitor, restored_logger) =
        canistergeek_ic_rust::post_upgrade_stable_data((monitor_owned, logger_owned));
    let restored_monitor = restored_monitor.unwrap();
    let restored_logger = restored_logger.unwrap();
    assert_eq!(restored_monitor.get_day_data_table().len(), 1);
    assert_eq!(restored_logger.get_log_messages_count(), 1);
    assert_eq!(
        restored_logger.get_log_messages(&None)[0].message,
        "before upgrade"
    );

    // A version mismatch is skipped rather than restored.
    let (skipped, _) = canistergeek_ic_rust::post_upgrade_stable_data((
        (255, restored_monitor.get_day_data_table().clone()),
        (1, logger::store::Storage::new(4)),
    ));
    assert!(skipped.is_none());
}
