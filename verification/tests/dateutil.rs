use pkhexcore::dateutil::{get_seconds_since2000, is_date_valid, SECONDS_PER_DAY};

#[test]
fn recognizes_correct_dates() {
    assert_eq!(true, is_date_valid(2000, 1, 1));
    assert_eq!(true, is_date_valid(2001, 1, 31));
}

#[test]
fn recognizes_valid_month_boundaries() {
    assert_eq!(true, is_date_valid(2016, 1, 31));
    assert_eq!(true, is_date_valid(2016, 2, 28));
    assert_eq!(true, is_date_valid(2016, 3, 31));
    assert_eq!(true, is_date_valid(2016, 4, 30));
    assert_eq!(true, is_date_valid(2016, 5, 31));
    assert_eq!(true, is_date_valid(2016, 6, 30));
    assert_eq!(true, is_date_valid(2016, 7, 31));
    assert_eq!(true, is_date_valid(2016, 8, 31));
    assert_eq!(true, is_date_valid(2016, 9, 30));
    assert_eq!(true, is_date_valid(2016, 10, 31));
    assert_eq!(true, is_date_valid(2016, 11, 30));
    assert_eq!(true, is_date_valid(2016, 12, 31));
}

#[test]
fn recognizes_correct_leap_year_test() {
    assert_eq!(true, is_date_valid(2004, 2, 29));
    assert_eq!(false, is_date_valid(2005, 2, 29));
}

#[test]
fn recognizes_century_leap_year_rule() {
    assert_eq!(true, is_date_valid(2000, 2, 29));
    assert_eq!(false, is_date_valid(1900, 2, 29));
}

#[test]
fn fails_with_zero_date() {
    assert_eq!(false, is_date_valid(0, 0, 0));
}

#[test]
fn fails_with_large_day() {
    assert_eq!(false, is_date_valid(2000, 1, 32));
}

#[test]
fn fails_with_large_month() {
    assert_eq!(false, is_date_valid(2000, 13, 1));
}

#[test]
fn fails_with_large_year() {
    assert_eq!(false, is_date_valid(10000, 1, 1));
}

#[test]
fn fails_with_zero_day() {
    assert_eq!(false, is_date_valid(2000, 1, 0));
}

#[test]
fn fails_with_zero_month() {
    assert_eq!(false, is_date_valid(2000, 0, 1));
}

#[test]
fn fails_with_zero_year() {
    assert_eq!(false, is_date_valid(0, 1, 1));
}

#[test]
fn dates_since_epoch2000_test() {
    // (2000/1/2)  (2000,1,1)
    // 946771200 - 946684800 = 86,400 a full day in secs
    assert_eq!(SECONDS_PER_DAY, get_seconds_since2000(2000, 1, 2));

    // (2000/2/1)  (2000/1/1)
    // 949363200 - 946684800 = 2,678,400 a full month 31 days in Jan
    assert_eq!(2678400, get_seconds_since2000(2000, 2, 1));

    // (2001/1/1)  (2000/1/1)
    // 978307200 - 946684800 = 31,622,400 a full (leap) year in secs
    assert_eq!(31622400, get_seconds_since2000(2001, 1, 1));
}

#[test]
fn dates_before_epoch2000_are_negative() {
    assert_eq!(-SECONDS_PER_DAY, get_seconds_since2000(1999, 12, 31));
}

#[test]
fn test_valid_dates() {
    let cases: [(u32, u32, u32, bool); 21] = [
        (2000, 1, 1, true),
        (2001, 1, 31, true),
        (2016, 1, 31, true),
        (2016, 2, 28, true),
        (2016, 3, 31, true),
        (2016, 4, 30, true),
        (2016, 5, 31, true),
        (2016, 6, 30, true),
        (2016, 7, 31, true),
        (2016, 8, 31, true),
        (2016, 9, 30, true),
        (2016, 10, 31, true),
        (2016, 11, 30, true),
        (2016, 12, 31, true),
        (0, 0, 0, false),
        (2000, 1, 32, false),
        (2000, 13, 1, false),
        (10000, 1, 1, false),
        (2000, 1, 0, false),
        (2000, 0, 1, false),
        (0, 1, 1, false),
    ];
    for (year, month, day, expected) in cases {
        assert_eq!(
            expected,
            is_date_valid(year, month, day),
            "expected {}/{}/{} to be {}",
            year,
            month,
            day,
            if expected { "valid" } else { "invalid" },
        );
    }
}

#[test]
fn test_recognizes_correct_leap_year() {
    assert_eq!(true, is_date_valid(2004, 2, 29));
    assert_eq!(false, is_date_valid(2005, 2, 29));
}

#[test]
fn test_dates_since_epoch2000() {
    assert_eq!(get_seconds_since2000(2000, 1, 2), 24 * 3600);
    assert_eq!(get_seconds_since2000(2000, 2, 1), 31 * 24 * 3600);
    assert_eq!(get_seconds_since2000(2001, 1, 1), 366 * 24 * 3600);
}
