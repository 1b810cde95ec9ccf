use convert_moves::calendar::{
    file_name_at, file_name_for, is_digit_char, join_date_and_time, read_local_time, stamp_at,
    BadLocalTime, CalendarTime,
};

fn at(year: i32, month: u32, day: u32, hour: u32, minute: u32, second: u32) -> CalendarTime {
    CalendarTime { year, month, day, hour, minute, second, nanosecond: 0 }
}

#[test]
fn file_is_named_after_the_local_time() {
    assert_eq!(
        file_name_for("2021-03-05T10:00:00"),
        Ok("Move_2021_03_05_10_00_00_Running.gpx".to_string())
    );
}

#[test]
fn file_is_named_after_a_local_time_with_a_blank() {
    assert_eq!(
        file_name_for("2021-03-05 10:00:00"),
        Ok("Move_2021_03_05_10_00_00_Running.gpx".to_string())
    );
    assert_eq!(
        file_name_for("1999-12-31 23:59:59.75"),
        Ok("Move_1999_12_31_23_59_59_Running.gpx".to_string())
    );
}

#[test]
fn both_forms_of_a_local_time_are_read_alike() {
    let time = at(2021, 3, 5, 10, 0, 0);
    assert_eq!(read_local_time("2021-03-05T10:00:00"), Some(time));
    assert_eq!(read_local_time("2021-03-05 10:00:00"), Some(time));
    assert_eq!(read_local_time("2021-03-05_10:00:00"), None);
    assert_eq!(read_local_time("2021-03-05  10:00:00"), None);
    assert_eq!(read_local_time("2021-03-05 10:00"), None);
    assert_eq!(read_local_time("2021-02-30 10:00:00"), None);
}

#[test]
fn date_and_time_are_joined_at_the_first_blank_between_digits() {
    assert_eq!(join_date_and_time("2021-03-05 10:00:00"), Some("2021-03-05T10:00:00".to_string()));
    assert_eq!(join_date_and_time(" 2021-03-05 10:00:00"), Some(" 2021-03-05T10:00:00".to_string()));
    assert_eq!(join_date_and_time("1 2 3"), Some("1T2 3".to_string()));
    assert_eq!(join_date_and_time("\u{e9}5 1\u{e9}"), Some("\u{e9}5T1\u{e9}".to_string()));
    assert_eq!(join_date_and_time("2021-03-05T10:00:00"), None);
    assert_eq!(join_date_and_time("2021-03-05  10:00:00"), None);
    assert_eq!(join_date_and_time("five past ten"), None);
    assert_eq!(join_date_and_time("5 a"), None);
    assert_eq!(join_date_and_time("a 5"), None);
    assert_eq!(join_date_and_time("1 "), None);
    assert_eq!(join_date_and_time(" 1"), None);
    assert_eq!(join_date_and_time(" "), None);
    assert_eq!(join_date_and_time(""), None);
}

#[test]
fn digits_are_the_ten_decimal_digits() {
    for c in "0123456789".chars() {
        assert!(is_digit_char(c));
    }
    for c in " T-:./aZ\u{663}".chars() {
        assert!(!is_digit_char(c));
    }
}

#[test]
fn local_time_that_is_no_date_names_no_file() {
    assert_eq!(file_name_for(""), Err(BadLocalTime));
    assert_eq!(file_name_for("yesterday"), Err(BadLocalTime));
    assert_eq!(file_name_for("2021-02-30T10:00:00"), Err(BadLocalTime));
}

#[test]
fn file_name_pads_every_field() {
    assert_eq!(
        file_name_at(&at(987, 1, 2, 3, 4, 5)),
        Ok("Move_0987_01_02_03_04_05_Running.gpx".to_string())
    );
}

#[test]
fn file_name_signs_years_beyond_four_digits() {
    assert_eq!(
        file_name_at(&at(12345, 12, 31, 23, 59, 59)),
        Ok("Move_+12345_12_31_23_59_59_Running.gpx".to_string())
    );
    assert_eq!(
        file_name_at(&at(-5, 6, 7, 8, 9, 10)),
        Ok("Move_-0005_06_07_08_09_10_Running.gpx".to_string())
    );
    assert_eq!(
        file_name_at(&at(-12345, 6, 7, 8, 9, 10)),
        Ok("Move_-12345_06_07_08_09_10_Running.gpx".to_string())
    );
}

#[test]
fn file_name_writes_a_leap_second_as_sixty() {
    let leap = CalendarTime {
        year: 2016, month: 12, day: 31, hour: 23, minute: 59, second: 59,
        nanosecond: 1_000_000_000,
    };
    assert_eq!(file_name_at(&leap), Ok("Move_2016_12_31_23_59_60_Running.gpx".to_string()));
}

#[test]
fn fields_that_name_no_moment_name_no_file() {
    assert_eq!(file_name_at(&at(2021, 2, 29, 0, 0, 0)), Err(BadLocalTime));
    assert_eq!(file_name_at(&at(2021, 13, 1, 0, 0, 0)), Err(BadLocalTime));
    assert_eq!(file_name_at(&at(2021, 1, 1, 24, 0, 0)), Err(BadLocalTime));
}

#[test]
fn stamp_has_milliseconds_and_a_utc_marker() {
    let time = CalendarTime {
        year: 2021, month: 3, day: 5, hour: 18, minute: 0, second: 0, nanosecond: 7_654_321,
    };
    assert_eq!(stamp_at(&time), Some("2021-03-05T18:00:00.007Z".to_string()));
    assert_eq!(stamp_at(&at(2021, 3, 5, 18, 0, 0)), Some("2021-03-05T18:00:00.000Z".to_string()));
}

#[test]
fn stamp_of_a_leap_second_and_of_far_years() {
    let leap = CalendarTime {
        year: 2016, month: 12, day: 31, hour: 23, minute: 59, second: 59,
        nanosecond: 1_250_000_000,
    };
    assert_eq!(stamp_at(&leap), Some("2016-12-31T23:59:60.250Z".to_string()));
    assert_eq!(stamp_at(&at(10000, 1, 1, 0, 0, 0)), Some("+10000-01-01T00:00:00.000Z".to_string()));
    assert_eq!(stamp_at(&at(-1, 1, 1, 0, 0, 0)), Some("-0001-01-01T00:00:00.000Z".to_string()));
    assert_eq!(stamp_at(&at(2021, 4, 31, 0, 0, 0)), None);
}
