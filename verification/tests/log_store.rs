use canistergeek_ic_rust::api_type::Nanos;
use canistergeek_ic_rust::logger::data_type::LogMessage;
use canistergeek_ic_rust::logger::store::Storage;

fn validate_message(message: &LogMessage, nanos: Nanos, text: &str) {
    assert_eq!(message.timeNanos, nanos);
    assert_eq!(message.message, text);
}

#[test]
fn test_empty() {
    let storage = Storage::new(4);

    let messages = storage.get_log_messages(&None);
    let mut iterator = messages.iter();
    assert_eq!(iterator.next().is_none(), true);

    let messages = storage.get_log_messages_reverse(&None);
    let mut iterator = messages.iter();
    assert_eq!(iterator.next().is_none(), true);
}

#[test]
fn test_cyclic() {
    let mut storage = Storage::new(4);

    {
        storage.store_log_message(LogMessage {
            timeNanos: 10,
            message: String::from("time 10"),
        });

        let messages = storage.get_log_messages(&None);
        let mut iterator = messages.iter();
        validate_message(iterator.next().unwrap(), 10, "time 10");
        assert_eq!(iterator.next().is_none(), true);

        let messages = storage.get_log_messages_reverse(&None);
        let mut iterator = messages.iter();
        validate_message(iterator.next().unwrap(), 10, "time 10");
        assert_eq!(iterator.next().is_none(), true);
    }

    {
        storage.store_log_message(LogMessage {
            timeNanos: 20,
            message: String::from("time 20"),
        });
        storage.store_log_message(LogMessage {
            timeNanos: 30,
            message: String::from("time 30"),
        });

        let messages = storage.get_log_messages(&None);
        let mut iterator = messages.iter();
        validate_message(iterator.next().unwrap(), 10, "time 10");
        validate_message(iterator.next().unwrap(), 20, "time 20");
        validate_message(iterator.next().unwrap(), 30, "time 30");
        assert_eq!(iterator.next().is_none(), true);

        let messages = storage.get_log_messages_reverse(&None);
        let mut iterator = messages.iter();
        validate_message(iterator.next().unwrap(), 30, "time 30");
        validate_message(iterator.next().unwrap(), 20, "time 20");
        validate_message(iterator.next().unwrap(), 10, "time 10");
        assert_eq!(iterator.next().is_none(), true);
    }

    {
        storage.store_log_message(LogMessage {
            timeNanos: 40,
            message: String::from("time 40"),
        });

        let messages = storage.get_log_messages(&None);
        let mut iterator = messages.iter();
        validate_message(iterator.next().unwrap(), 10, "time 10");
        validate_message(iterator.next().unwrap(), 20, "time 20");
        validate_message(iterator.next().unwrap(), 30, "time 30");
        validate_message(iterator.next().unwrap(), 40, "time 40");
        assert_eq!(iterator.next().is_none(), true);

        let messages = storage.get_log_messages_reverse(&None);
        let mut iterator = messages.iter();
        validate_message(iterator.next().unwrap(), 40, "time 40");
        validate_message(iterator.next().unwrap(), 30, "time 30");
        validate_message(iterator.next().unwrap(), 20, "time 20");
        validate_message(iterator.next().unwrap(), 10, "time 10");
        assert_eq!(iterator.next().is_none(), true);
    }

    {
        storage.store_log_message(LogMessage {
            timeNanos: 50,
            message: String::from("time 50"),
        });

        let messages = storage.get_log_messages(&None);
        let mut iterator = messages.iter();
        validate_message(iterator.next().unwrap(), 20, "time 20");
        validate_message(iterator.next().unwrap(), 30, "time 30");
        validate_message(iterator.next().unwrap(), 40, "time 40");
        validate_message(iterator.next().unwrap(), 50, "time 50");
        assert_eq!(iterator.next().is_none(), true);

        let messages = storage.get_log_messages_reverse(&None);
        let mut iterator = messages.iter();
        validate_message(iterator.next().unwrap(), 50, "time 50");
        validate_message(iterator.next().unwrap(), 40, "time 40");
        validate_message(iterator.next().unwrap(), 30, "time 30");
        validate_message(iterator.next().unwrap(), 20, "time 20");
        assert_eq!(iterator.next().is_none(), true);
    }
}

#[test]
fn test_cyclic_with_from() {
    let mut storage = Storage::new(4);

    {
        storage.store_log_message(LogMessage {
            timeNanos: 10,
            message: String::from("time 10"),
        });
        storage.store_log_message(LogMessage {
            timeNanos: 20,
            message: String::from("time 20"),
        });
        storage.store_log_message(LogMessage {
            timeNanos: 30,
            message: String::from("time 30"),
        });
        storage.store_log_message(LogMessage {
            timeNanos: 40,
            message: String::from("time 40"),
        });

        let messages = storage.get_log_messages(&Some(20));
        let mut iterator = messages.iter();
        validate_message(iterator.next().unwrap(), 30, "time 30");
        validate_message(iterator.next().unwrap(), 40, "time 40");
        assert_eq!(iterator.next().is_none(), true);

        let messages = storage.get_log_messages_reverse(&Some(20));
        let mut iterator = messages.iter();
        validate_message(iterator.next().unwrap(), 10, "time 10");
        assert_eq!(iterator.next().is_none(), true);
    }
}

#[test]
fn test_set_max_size() {
    let mut storage = Storage::new(2);

    {
        storage.set_max_messages_count(3);
        let messages = storage.get_log_messages(&None);
        let mut iterator = messages.iter();
        assert_eq!(iterator.next().is_none(), true);
    }

    {
        storage.store_log_message(LogMessage {
            timeNanos: 10,
            message: String::from("time 10"),
        });
        storage.store_log_message(LogMessage {
            timeNanos: 20,
            message: String::from("time 20"),
        });
        storage.set_max_messages_count(4);

        let messages = storage.get_log_messages(&None);
        let mut iterator = messages.iter();
        validate_message(iterator.next().unwrap(), 10, "time 10");
        validate_message(iterator.next().unwrap(), 20, "time 20");
        assert_eq!(iterator.next().is_none(), true);
    }

    {
        storage.store_log_message(LogMessage {
            timeNanos: 30,
            message: String::from("time 30"),
        });
        storage.store_log_message(LogMessage {
            timeNanos: 40,
            message: String::from("time 40"),
        });
        storage.store_log_message(LogMessage {
            timeNanos: 50,
            message: String::from("time 50"),
        });
        storage.set_max_messages_count(5);

        let messages = storage.get_log_messages(&None);
        let mut iterator = messages.iter();
        validate_message(iterator.next().unwrap(), 20, "time 20");
        validate_message(iterator.next().unwrap(), 30, "time 30");
        validate_message(iterator.next().unwrap(), 40, "time 40");
        validate_message(iterator.next().unwrap(), 50, "time 50");
        assert_eq!(iterator.next().is_none(), true);
    }

    {
        storage.store_log_message(LogMessage {
            timeNanos: 60,
            message: String::from("time 60"),
        });

        let messages = storage.get_log_messages(&None);
        let mut iterator = messages.iter();
        validate_message(iterator.next().unwrap(), 20, "time 20");
        validate_message(iterator.next().unwrap(), 30, "time 30");
        validate_message(iterator.next().unwrap(), 40, "time 40");
        validate_message(iterator.next().unwrap(), 50, "time 50");
        validate_message(iterator.next().unwrap(), 60, "time 60");
        assert_eq!(iterator.next().is_none(), true);
    }

    {
        storage.set_max_messages_count(3);

        let messages = storage.get_log_messages(&None);
        let mut iterator = messages.iter();
        validate_message(iterator.next().unwrap(), 40, "time 40");
        validate_message(iterator.next().unwrap(), 50, "time 50");
        validate_message(iterator.next().unwrap(), 60, "time 60");
        assert_eq!(iterator.next().is_none(), true);
    }

    {
        storage.set_max_messages_count(6);
        storage.set_max_messages_count(3);

        let messages = storage.get_log_messages(&None);
        let mut iterator = messages.iter();
        validate_message(iterator.next().unwrap(), 40, "time 40");
        validate_message(iterator.next().unwrap(), 50, "time 50");
        validate_message(iterator.next().unwrap(), 60, "time 60");
        assert_eq!(iterator.next().is_none(), true);
    }
}

#[test]
fn test_set_max_size_not_full_less() {
    let mut storage = Storage::new(4);
    storage.set_max_messages_count(5);

    {
        storage.store_log_message(LogMessage {
            timeNanos: 10,
            message: String::from("time 10"),
        });
        storage.store_log_message(LogMessage {
            timeNanos: 20,
            message: String::from("time 20"),
        });
        storage.store_log_message(LogMessage {
            timeNanos: 30,
            message: String::from("time 30"),
        });
        storage.store_log_message(LogMessage {
            timeNanos: 40,
            message: String::from("time 40"),
        });
        storage.set_max_messages_count(3);

        let messages = storage.get_log_messages(&None);
        let mut iterator = messages.iter();
        validate_message(iterator.next().unwrap(), 20, "time 20");
        validate_message(iterator.next().unwrap(), 30, "time 30");
        validate_message(iterator.next().unwrap(), 40, "time 40");
        assert_eq!(iterator.next().is_none(), true);
    }
}

#[test]
fn test_set_max_size_not_full_more() {
    let mut storage = Storage::new(5);

    {
        storage.store_log_message(LogMessage {
            timeNanos: 10,
            message: String::from("time 10"),
        });
        storage.store_log_message(LogMessage {
            timeNanos: 20,
            message: String::from("time 20"),
        });
        storage.store_log_message(LogMessage {
            timeNanos: 30,
            message: String::from("time 30"),
        });
        storage.store_log_message(LogMessage {
            timeNanos: 40,
            message: String::from("time 40"),
        });
        storage.set_max_messages_count(6);

        let messages = storage.get_log_messages(&None);
        let mut iterator = messages.iter();
        validate_message(iterator.next().unwrap(), 10, "time 10");
        validate_message(iterator.next().unwrap(), 20, "time 20");
        validate_message(iterator.next().unwrap(), 30, "time 30");
        validate_message(iterator.next().unwrap(), 40, "time 40");
        assert_eq!(iterator.next().is_none(), true);
    }
}

#[test]
fn test_set_max_size_full_less() {
    let mut storage = Storage::new(4);

    {
        storage.store_log_message(LogMessage {
            timeNanos: 10,
            message: String::from("time 10"),
        });
        storage.store_log_message(LogMessage {
            timeNanos: 20,
            message: String::from("time 20"),
        });
        storage.store_log_message(LogMessage {
            timeNanos: 30,
            message: String::from("time 30"),
        });
        storage.store_log_message(LogMessage {
            timeNanos: 40,
            message: String::from("time 40"),
        });
        storage.set_max_messages_count(3);

        let messages = storage.get_log_messages(&None);
        let mut iterator = messages.iter();
        validate_message(iterator.next().unwrap(), 20, "time 20");
        validate_message(iterator.next().unwrap(), 30, "time 30");
        validate_message(iterator.next().unwrap(), 40, "time 40");
        assert_eq!(iterator.next().is_none(), true);
    }
}

#[test]
fn test_set_max_size_full_more() {
    let mut storage = Storage::new(3);

    {
        storage.store_log_message(LogMessage {
            timeNanos: 10,
            message: String::from("time 10"),
        });
        storage.store_log_message(LogMessage {
            timeNanos: 20,
            message: String::from("time 20"),
        });
        storage.store_log_message(LogMessage {
            timeNanos: 30,
            message: String::from("time 30"),
        });
        storage.store_log_message(LogMessage {
            timeNanos: 40,
            message: String::from("time 40"),
        });
        storage.set_max_messages_count(5);

        let messages = storage.get_log_messages(&None);
        let mut iterator = messages.iter();
        validate_message(iterator.next().unwrap(), 20, "time 20");
        validate_message(iterator.next().unwrap(), 30, "time 30");
        validate_message(iterator.next().unwrap(), 40, "time 40");
        assert_eq!(iterator.next().is_none(), true);
    }
}

#[test]
fn test_info() {
    let mut storage = Storage::new(2);
    assert_eq!(storage.get_log_messages_count(), 0);
    assert_eq!(storage.get_first_log_message_time().is_none(), true);
    assert_eq!(storage.get_last_log_message_time().is_none(), true);

    storage.store_log_message(LogMessage {
        timeNanos: 10,
        message: String::from("time 10"),
    });
    assert_eq!(storage.get_log_messages_count(), 1);
    assert_eq!(storage.get_first_log_message_time().unwrap(), 10_u64);
    assert_eq!(storage.get_last_log_message_time().unwrap(), 10_u64);

    storage.store_log_message(LogMessage {
        timeNanos: 20,
        message: String::from("time 20"),
    });
    assert_eq!(storage.get_log_messages_count(), 2);
    assert_eq!(storage.get_first_log_message_time().unwrap(), 10_u64);
    assert_eq!(storage.get_last_log_message_time().unwrap(), 20_u64);

    storage.store_log_message(LogMessage {
        timeNanos: 30,
        message: String::from("time 30"),
    });
    assert_eq!(storage.get_log_messages_count(), 2);
    assert_eq!(storage.get_first_log_message_time().unwrap(), 20_u64);
    assert_eq!(storage.get_last_log_message_time().unwrap(), 30_u64);

    storage.store_log_message(LogMessage {
        timeNanos: 40,
        message: String::from("time 40"),
    });
    assert_eq!(storage.get_log_messages_count(), 2);
    assert_eq!(storage.get_first_log_message_time().unwrap(), 30_u64);
    assert_eq!(storage.get_last_log_message_time().unwrap(), 40_u64);
}

#[test]
fn test_resize_noop_keeps_store() {
    let mut storage = Storage::new(3);
    storage.store_log_message(LogMessage {
        timeNanos: 10,
        message: String::from("time 10"),
    });
    storage.store_log_message(LogMessage {
        timeNanos: 20,
        message: String::from("time 20"),
    });
    storage.set_max_messages_count(3);

    let messages = storage.get_log_messages(&None);
    assert_eq!(messages.len(), 2);
    validate_message(&messages[0], 10, "time 10");
    validate_message(&messages[1], 20, "time 20");
}

#[test]
fn test_forward_reverse_mirror() {
    let mut storage = Storage::new(3);
    for (nanos, text) in [(10, "time 10"), (20, "time 20"), (30, "time 30"), (40, "time 40")] {
        storage.store_log_message(LogMessage {
            timeNanos: nanos,
            message: String::from(text),
        });
    }

    let forward = storage.get_log_messages(&None);
    let mut reversed = storage.get_log_messages_reverse(&None);
    reversed.reverse();
    assert_eq!(forward.len(), reversed.len());
    for (a, b) in forward.iter().zip(reversed.iter()) {
        assert_eq!(a.timeNanos, b.timeNanos);
        assert_eq!(a.message, b.message);
    }
}
