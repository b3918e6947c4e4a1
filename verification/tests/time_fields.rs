use chrono::{NaiveDate, NaiveDateTime, NaiveTime};
use healthpi::devices::utils;
use healthpi::time::Timestamp;

fn at(date_time: NaiveDateTime) -> Timestamp {
    Timestamp::new(date_time.and_utc().timestamp(), 0)
}

#[test]
fn naive_date_time_from_le_bytes() {
    let test_data = [
        (
            [7, 228, 2, 29, 21, 37, 5],
            NaiveDateTime::new(
                NaiveDate::from_ymd_opt(2020, 2, 29).unwrap(),
                NaiveTime::from_hms_opt(21, 37, 5).unwrap(),
            ),
        ),
        (
            [7, 216, 10, 1, 1, 1, 1],
            NaiveDateTime::new(
                NaiveDate::from_ymd_opt(2008, 10, 1).unwrap(),
                NaiveTime::from_hms_opt(1, 1, 1).unwrap(),
            ),
        ),
        (
            [8, 2, 12, 22, 6, 23, 10],
            NaiveDateTime::new(
                NaiveDate::from_ymd_opt(2050, 12, 22).unwrap(),
                NaiveTime::from_hms_opt(6, 23, 10).unwrap(),
            ),
        ),
        (
            [7, 230, 8, 22, 16, 2, 19],
            NaiveDateTime::new(
                NaiveDate::from_ymd_opt(2022, 8, 22).unwrap(),
                NaiveTime::from_hms_opt(16, 2, 19).unwrap(),
            ),
        ),
    ];

    for (i, (bytes, expected_output)) in test_data.into_iter().enumerate() {
        assert_eq!(
            utils::naive_date_time_from_bytes(&bytes, false),
            Some(at(expected_output)),
            "Test case #{}",
            i
        );
    }
}

#[test]
fn naive_date_time_from_be_bytes() {
    let test_data = [
        (
            [228, 7, 2, 29, 21, 37, 5],
            NaiveDateTime::new(
                NaiveDate::from_ymd_opt(2020, 2, 29).unwrap(),
                NaiveTime::from_hms_opt(21, 37, 5).unwrap(),
            ),
        ),
        (
            [216, 7, 10, 1, 1, 1, 1],
            NaiveDateTime::new(
                NaiveDate::from_ymd_opt(2008, 10, 1).unwrap(),
                NaiveTime::from_hms_opt(1, 1, 1).unwrap(),
            ),
        ),
        (
            [2, 8, 12, 22, 6, 23, 10],
            NaiveDateTime::new(
                NaiveDate::from_ymd_opt(2050, 12, 22).unwrap(),
                NaiveTime::from_hms_opt(6, 23, 10).unwrap(),
            ),
        ),
        (
            [230, 7, 8, 22, 16, 2, 19],
            NaiveDateTime::new(
                NaiveDate::from_ymd_opt(2022, 8, 22).unwrap(),
                NaiveTime::from_hms_opt(16, 2, 19).unwrap(),
            ),
        ),
    ];

    for (i, (bytes, expected_output)) in test_data.into_iter().enumerate() {
        assert_eq!(
            utils::naive_date_time_from_bytes(&bytes, true),
            Some(at(expected_output)),
            "Test case #{}",
            i
        );
    }
}
