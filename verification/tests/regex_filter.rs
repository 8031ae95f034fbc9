use canistergeek_ic_rust::api_type::LogMessageData;
use canistergeek_ic_rust::logger::regex_filter::MessageRegexFilter;

#[test]
fn regex_filter_test() {
    let mut filter = MessageRegexFilter::create(3, "abc").unwrap();

    assert_eq!(filter.is_stop(), false);
    assert_eq!(
        filter.check_match(&LogMessageData {
            timeNanos: 0,
            message: String::from("mess abc sss")
        }),
        true
    );
    assert_eq!(filter.is_stop(), false);
    assert_eq!(
        filter.check_match(&LogMessageData {
            timeNanos: 0,
            message: String::from("aa abc bb")
        }),
        true
    );
    assert_eq!(filter.is_stop(), false);
    assert_eq!(
        filter.check_match(&LogMessageData {
            timeNanos: 0,
            message: String::from("aa ab bb")
        }),
        false
    );
    assert_eq!(filter.is_stop(), true);
}

#[test]
fn regex_filter_invalid_pattern() {
    assert!(MessageRegexFilter::create(3, "(").is_err());
}
