use canistergeek_ic_rust::api_type::{
    CanisterLogRequest, CanisterLogResponse, GetLatestLogMessagesParameters, GetLogMessagesFilter,
    GetLogMessagesParameters,
};
use canistergeek_ic_rust::logger::calculator;
use canistergeek_ic_rust::logger::collector::store_log_message_int;
use canistergeek_ic_rust::logger::store::Storage;

fn storage_with(texts: &[&str]) -> Storage {
    let mut storage = Storage::new(8);
    for (i, text) in texts.iter().enumerate() {
        store_log_message_int(&mut storage, String::from(*text), &1024, (i + 1) as u64);
    }
    storage
}

#[test]
fn test_analyze_limit_bounds_forward_scan() {
    // Four messages; only the third one scanned matches. With an analyze
    // limit of three, the scan inspects exactly three messages: the match
    // is returned and the resumption timestamp is the third message's.
    let storage = storage_with(&["aa", "bb", "match", "dd"]);

    let params = GetLogMessagesParameters {
        count: 10,
        filter: Some(GetLogMessagesFilter {
            analyzeCount: 3,
            messageContains: Some(String::from("match")),
            messageRegex: None,
        }),
        fromTimeNanos: None,
    };
    let result = calculator::get_log_messages(&storage, params).unwrap();
    assert_eq!(result.data.len(), 1);
    assert_eq!(result.data[0].message, "match");
    assert_eq!(result.lastAnalyzedMessageTimeNanos, Some(3));
}

#[test]
fn test_analyze_limit_bounds_reverse_scan() {
    // Scanned newest-first, the third message inspected is the second
    // stored one; again exactly three messages are inspected.
    let storage = storage_with(&["aa", "match", "cc", "dd"]);

    let params = GetLatestLogMessagesParameters {
        count: 10,
        filter: Some(GetLogMessagesFilter {
            analyzeCount: 3,
            messageContains: Some(String::from("match")),
            messageRegex: None,
        }),
        upToTimeNanos: None,
    };
    let result = calculator::get_latest_log_messages(&storage, params).unwrap();
    assert_eq!(result.data.len(), 1);
    assert_eq!(result.data[0].message, "match");
    assert_eq!(result.lastAnalyzedMessageTimeNanos, Some(2));
}

#[test]
fn test_page_count_bounds() {
    let storage = storage_with(&["aa", "bb"]);

    let params = GetLogMessagesParameters {
        count: 0,
        filter: None,
        fromTimeNanos: None,
    };
    assert!(calculator::get_log_messages(&storage, params).is_err());

    let params = GetLogMessagesParameters {
        count: 1025,
        filter: None,
        fromTimeNanos: None,
    };
    assert!(calculator::get_log_messages(&storage, params).is_err());

    let params = GetLogMessagesParameters {
        count: 1024,
        filter: None,
        fromTimeNanos: None,
    };
    assert_eq!(calculator::get_log_messages(&storage, params).unwrap().data.len(), 2);
}

#[test]
fn test_get_canister_log_info() {
    let storage = storage_with(&["aa", "bb", "cc"]);

    let response =
        canistergeek_ic_rust::logger::get_canister_log(&storage, Some(CanisterLogRequest::getMessagesInfo));
    match response {
        Some(CanisterLogResponse::messagesInfo(info)) => {
            assert_eq!(info.count, 3);
            assert_eq!(info.firstTimeNanos, Some(1));
            assert_eq!(info.lastTimeNanos, Some(3));
            assert_eq!(info.features.len(), 2);
        },
        _ => panic!(),
    }
}

#[test]
fn test_get_canister_log_rejected_page_is_none() {
    let storage = storage_with(&["aa"]);

    let request = Some(CanisterLogRequest::getMessages(GetLogMessagesParameters {
        count: 0,
        filter: None,
        fromTimeNanos: None,
    }));
    assert!(canistergeek_ic_rust::logger::get_canister_log(&storage, request).is_none());
}
