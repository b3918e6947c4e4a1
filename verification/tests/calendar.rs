use healthpi::time::Timestamp;

fn is_leap_year(year: u32) -> bool {
    year % 4 == 0 && (year % 100 != 0 || year % 400 == 0)
}

fn days_in_month(year: u32, month: u32) -> u32 {
    match month {
        2 => {
            if is_leap_year(year) {
                29
            } else {
                28
            }
        }
        4 | 6 | 9 | 11 => 30,
        _ => 31,
    }
}

#[test]
fn every_day_of_the_calendar_follows_the_day_before() {
    // from 0000-01-01 to 65535-12-31, day by day
    let mut expected: Option<i64> = None;
    for year in 0..=65_535u32 {
        for month in 1..=12u32 {
            for day in 1..=days_in_month(year, month) {
                let t = Timestamp::from_civil(year as u16, month as u8, day as u8, 0, 0, 0)
                    .expect("a day of the calendar");
                if let Some(expected) = expected {
                    assert_eq!(t.secs, expected, "{}-{}-{}", year, month, day);
                }
                assert_eq!(t.nanos, 0);
                expected = Some(t.secs + 86_400);
            }
        }
    }
    assert_eq!(Timestamp::from_civil(1970, 1, 1, 0, 0, 0), Some(Timestamp::new(0, 0)));
}

#[test]
fn no_day_outside_the_calendar_is_accepted() {
    for year in (0..=65_535u32).step_by(7).chain([1900, 2000, 2100, 2400, 65_535]) {
        for month in 0..=255u32 {
            let last = if (1..=12).contains(&month) { days_in_month(year, month) } else { 0 };
            for day in 0..=255u32 {
                let t = Timestamp::from_civil(year as u16, month as u8, day as u8, 12, 0, 0);
                assert_eq!(t.is_some(), 1 <= day && day <= last, "{}-{}-{}", year, month, day);
            }
        }
    }
}

#[test]
fn time_of_day_counts_in_seconds() {
    let midnight = Timestamp::from_civil(2022, 8, 4, 0, 0, 0).unwrap();
    for hour in 0..=255u32 {
        for minute in (0..=255u32).step_by(5).chain([59, 60]) {
            for second in (0..=255u32).step_by(3).chain([59, 60]) {
                let t = Timestamp::from_civil(2022, 8, 4, hour as u8, minute as u8, second as u8);
                if hour < 24 && minute < 60 && second < 60 {
                    let of_day = (hour * 3600 + minute * 60 + second) as i64;
                    assert_eq!(t, Some(Timestamp::new(midnight.secs + of_day, 0)));
                } else {
                    assert_eq!(t, None);
                }
            }
        }
    }
}

#[test]
fn day_numbers_count_365_days_a_year_and_the_leap_days() {
    let mut day_of_year;
    for year in 0..=65_535i64 {
        day_of_year = 0i64;
        for month in 1..=12u32 {
            for day in 1..=days_in_month(year as u32, month) {
                day_of_year += 1;
                let before = year - 1;
                let number = 365 * before + before.div_euclid(4) - before.div_euclid(100)
                    + before.div_euclid(400)
                    + day_of_year;
                let t = Timestamp::from_civil(year as u16, month as u8, day as u8, 0, 0, 0).unwrap();
                assert_eq!(t.secs, (number - 719_163) * 86_400, "{}-{}-{}", year, month, day);
            }
        }
    }
}

#[test]
fn seconds_follow_from_the_day_number() {
    assert_eq!(Timestamp::from_day_number(719_163, 0, 0, 0), Some(Timestamp::new(0, 0)));
    assert_eq!(Timestamp::from_day_number(719_164, 1, 2, 3), Some(Timestamp::new(90_123, 0)));
    assert_eq!(Timestamp::from_day_number(719_162, 23, 59, 59), Some(Timestamp::new(-1, 0)));
    assert_eq!(Timestamp::from_day_number(1, 0, 0, 0), Some(Timestamp::new(-62_135_596_800, 0)));
    assert_eq!(
        Timestamp::from_day_number(i32::MAX, 23, 59, 59).map(|t| t.secs),
        Some((i32::MAX as i64 - 719_163) * 86_400 + 86_399)
    );
    assert_eq!(
        Timestamp::from_day_number(i32::MIN, 0, 0, 0).map(|t| t.secs),
        Some((i32::MIN as i64 - 719_163) * 86_400)
    );
    assert_eq!(Timestamp::from_day_number(719_163, 24, 0, 0), None);
    assert_eq!(Timestamp::from_day_number(719_163, 0, 60, 0), None);
    assert_eq!(Timestamp::from_day_number(719_163, 0, 0, 60), None);
}
