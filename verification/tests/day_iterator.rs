use canistergeek_ic_rust::monitor::day_iterator::DayIterator;
use chrono::TimeZone;
use chrono::Utc;

const MILLIS_PER_DAY: u64 = 86_400_000;

#[test]
fn day_iterator_wrong() {
    match DayIterator::new_reverse(3, 2) {
        Err(_) => (),
        _ => panic!(),
    }
}

#[test]
fn day_iterator_single() {
    let result = DayIterator::new_reverse(23, 23);
    let mut iter = result.unwrap();
    assert_eq!(iter.next().unwrap(), 0);
    assert_eq!(iter.next(), None);
}

#[test]
fn day_iterator_some() {
    let from = Utc.with_ymd_and_hms(2020, 12, 28, 23, 12, 13).unwrap();
    let to = Utc.with_ymd_and_hms(2021, 1, 3, 23, 12, 13).unwrap();

    let result = DayIterator::new_reverse(
        from.timestamp_millis() as u64,
        to.timestamp_millis() as u64,
    );
    let mut iter = result.unwrap();

    let to_day_start = Utc.with_ymd_and_hms(2021, 1, 3, 0, 0, 0).unwrap().timestamp_millis() as u64;
    assert_eq!(iter.next().unwrap(), to_day_start);
    assert_eq!(iter.next().unwrap(), to_day_start - MILLIS_PER_DAY);
    assert_eq!(iter.next().unwrap(), to_day_start - 2 * MILLIS_PER_DAY);
    assert_eq!(iter.next().unwrap(), to_day_start - 3 * MILLIS_PER_DAY);
    assert_eq!(iter.next().unwrap(), to_day_start - 4 * MILLIS_PER_DAY);
    assert_eq!(iter.next().unwrap(), to_day_start - 5 * MILLIS_PER_DAY);
    assert_eq!(iter.next().unwrap(), to_day_start - 6 * MILLIS_PER_DAY);
    assert_eq!(iter.next(), None);
}

#[test]
fn day_iterator_some_max() {
    let from = Utc.with_ymd_and_hms(2020, 12, 28, 23, 12, 13).unwrap();
    let to = Utc.with_ymd_and_hms(2021, 1, 3, 23, 12, 13).unwrap();

    let result = DayIterator::new_reverse(
        from.timestamp_millis() as u64,
        to.timestamp_millis() as u64,
    );
    let mut iter = result.unwrap();

    let mut v: Vec<u64> = Vec::new();
    for _ in 0..3 {
        v.push(iter.next().unwrap());
    }
    assert_eq!(1609632000_u64 * 1000, v[0]);
    assert_eq!(1609545600_u64 * 1000, v[1]);
    assert_eq!(1609459200_u64 * 1000, v[2]);
    assert_eq!(3, v.len());
}
