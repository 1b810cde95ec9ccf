//! Dates and times: the local time that names the output file, and the UTC time of a fix.
//!
//! Parsing and formatting are done by `chrono`. Between the two a time is held as its
//! calendar fields, so that what is written can be stated field by field.
//!
//! A local time is written with the letter T or with one blank between date and time.
//! `chrono` reads the first form; a text that it does not read is read once more with T
//! in place of the blank.

use crate::digits::{decimal, four_digits, three_digits, two_digits};
use chrono::{DateTime, Datelike, NaiveDate, NaiveDateTime, SecondsFormat, Timelike, Utc};
use vstd::prelude::*;
use vstd::string::{StrSliceExecFns, StringExecFns};

verus! {

/// A date and time of day, field by field.
#[derive(Clone, Copy, Debug, PartialEq, Eq, Structural)]
pub struct CalendarTime {
    /// The proleptic Gregorian year; 0 is 1 BCE.
    pub year: i32,
    /// The month, from 1.
    pub month: u32,
    /// The day of the month, from 1.
    pub day: u32,
    pub hour: u32,
    pub minute: u32,
    /// The second, at most 59; a leap second is second 59 with a nanosecond of a
    /// thousand million or more.
    pub second: u32,
    pub nanosecond: u32,
}

/// Whether `year` has a 29th of February.
pub open spec fn is_leap_year(year: int) -> bool {
    year % 4 == 0 && (year % 100 != 0 || year % 400 == 0)
}

/// The number of days of `month` in `year`.
pub open spec fn days_in_month(year: int, month: int) -> int {
    if month == 2 {
        if is_leap_year(year) {
            29
        } else {
            28
        }
    } else if month == 4 || month == 6 || month == 9 || month == 11 {
        30
    } else {
        31
    }
}

/// A year as it is written: four digits from 0 to 9999, otherwise a sign and at least
/// four digits.
pub open spec fn year_text(year: int) -> Seq<char> {
    if 0 <= year <= 9999 {
        four_digits(year)
    } else if year > 9999 {
        seq!['+'] + decimal(year as nat)
    } else if year > -1000 {
        seq!['-'] + four_digits(-year)
    } else {
        seq!['-'] + decimal((-year) as nat)
    }
}

impl CalendarTime {
    /// Whether the fields name a moment that `chrono` can hold.
    pub open spec fn is_calendar_time(self) -> bool {
        &&& -262143 <= self.year <= 262142
        &&& 1 <= self.month <= 12
        &&& 1 <= self.day <= days_in_month(self.year as int, self.month as int)
        &&& self.hour < 24
        &&& self.minute < 60
        &&& self.second < 60
        &&& self.nanosecond < 2_000_000_000
        &&& (self.nanosecond >= 1_000_000_000 ==> self.second == 59)
    }

    /// The second as it is written: 60 during a leap second.
    pub open spec fn written_second(self) -> int {
        self.second as int + self.nanosecond as int / 1_000_000_000
    }

    /// The milliseconds as they are written.
    pub open spec fn written_millis(self) -> int {
        (self.nanosecond as int % 1_000_000_000) / 1_000_000
    }

    /// The name of the output file for a move that began at this local time:
    /// `Move_<year>_<month>_<day>_<hour>_<minute>_<second>_Running.gpx`.
    pub open spec fn move_file_name(self) -> Seq<char> {
        "Move_"@ + year_text(self.year as int) + "_"@ + two_digits(self.month as int) + "_"@
            + two_digits(self.day as int) + "_"@ + two_digits(self.hour as int) + "_"@
            + two_digits(self.minute as int) + "_"@ + two_digits(self.written_second())
            + "_Running.gpx"@
    }

    /// This time, taken as UTC, in RFC 3339 form with milliseconds and `Z`.
    pub open spec fn rfc3339_millis(self) -> Seq<char> {
        year_text(self.year as int) + "-"@ + two_digits(self.month as int) + "-"@ + two_digits(
            self.day as int,
        ) + "T"@ + two_digits(self.hour as int) + ":"@ + two_digits(self.minute as int) + ":"@
            + two_digits(self.written_second()) + "."@ + three_digits(self.written_millis())
            + "Z"@
    }
}

/// What `chrono` reads a local date and time text as, if it reads it at all.
pub uninterp spec fn local_time_of(text: Seq<char>) -> Option<CalendarTime>;

/// What `chrono` reads a time stamp text as, moved to UTC, if it reads it at all.
pub uninterp spec fn utc_time_of(text: Seq<char>) -> Option<CalendarTime>;

/// `chrono`'s `FromStr` for `NaiveDateTime`, with the fields of what it read.
///
/// Claimed: the result depends on the text alone, and what was read is a moment that
/// `chrono` can hold.
#[verifier::external_body]
pub(crate) fn parse_local_time(text: &str) -> (parsed: Option<CalendarTime>)
    ensures
        parsed == local_time_of(text@),
        parsed matches Some(t) ==> t.is_calendar_time(),
{
    text.parse::<NaiveDateTime>().ok().map(|t| CalendarTime {
        year: t.year(),
        month: t.month(),
        day: t.day(),
        hour: t.hour(),
        minute: t.minute(),
        second: t.second(),
        nanosecond: t.nanosecond(),
    })
}

/// `chrono`'s `FromStr` for `DateTime<Utc>`, with the fields of what it read.
///
/// Claimed: the result depends on the text alone, and what was read is a moment that
/// `chrono` can hold.
#[verifier::external_body]
pub(crate) fn parse_utc_time(text: &str) -> (parsed: Option<CalendarTime>)
    ensures
        parsed == utc_time_of(text@),
        parsed matches Some(t) ==> t.is_calendar_time(),
{
    text.parse::<DateTime<Utc>>().ok().map(|t| CalendarTime {
        year: t.year(),
        month: t.month(),
        day: t.day(),
        hour: t.hour(),
        minute: t.minute(),
        second: t.second(),
        nanosecond: t.nanosecond(),
    })
}

/// `chrono`'s `NaiveDateTime::format` with the pattern of the output file's name.
///
/// Claimed: a moment that `chrono` can hold is formatted, the year by `%Y` and every
/// other field by its two-digit zero-padded specifier, as `move_file_name` spells out.
#[verifier::external_body]
pub(crate) fn format_file_name(time: &CalendarTime) -> (name: Option<String>)
    ensures
        time.is_calendar_time() ==> name is Some,
        name matches Some(text) ==> text@ == time.move_file_name(),
{
    NaiveDate::from_ymd_opt(time.year, time.month, time.day)
        .and_then(|d| d.and_hms_nano_opt(time.hour, time.minute, time.second, time.nanosecond))
        .map(|t| t.format("Move_%Y_%m_%d_%H_%M_%S_Running.gpx").to_string())
}

/// `chrono`'s `DateTime::to_rfc3339_opts` with millisecond precision and `Z`.
///
/// Claimed: a moment that `chrono` can hold is written as `rfc3339_millis` spells out.
#[verifier::external_body]
pub(crate) fn format_rfc3339_millis(time: &CalendarTime) -> (stamp: Option<String>)
    ensures
        time.is_calendar_time() ==> stamp is Some,
        stamp matches Some(text) ==> text@ == time.rfc3339_millis(),
{
    NaiveDate::from_ymd_opt(time.year, time.month, time.day)
        .and_then(|d| d.and_hms_nano_opt(time.hour, time.minute, time.second, time.nanosecond))
        .map(|t| t.and_utc().to_rfc3339_opts(SecondsFormat::Millis, true))
}

/// Whether `c` is a decimal digit.
pub open spec fn is_digit(c: char) -> bool {
    c == '0' || c == '1' || c == '2' || c == '3' || c == '4' || c == '5' || c == '6' || c == '7'
        || c == '8' || c == '9'
}

/// Whether position `at` of `text` holds a blank between two digits.
pub open spec fn blank_between_digits(text: Seq<char>, at: int) -> bool {
    &&& 0 < at < text.len() - 1
    &&& text[at] == ' '
    &&& is_digit(text[at - 1])
    &&& is_digit(text[at + 1])
}

/// The first position of `text`, from `from` on, that holds a blank between two digits.
pub open spec fn first_blank_from(text: Seq<char>, from: int) -> Option<int>
    decreases text.len() - from,
{
    if from >= text.len() {
        None
    } else if blank_between_digits(text, from) {
        Some(from)
    } else {
        first_blank_from(text, from + 1)
    }
}

/// `text` with the letter T in place of its first blank between two digits: date and
/// time joined, where a blank parts them. `None` where no blank stands between digits.
pub open spec fn with_t(text: Seq<char>) -> Option<Seq<char>> {
    match first_blank_from(text, 0) {
        Some(at) => Some(text.update(at, 'T')),
        None => None,
    }
}

/// What a local date and time text is read as: what `chrono` reads it as, or, where it
/// reads nothing, what it reads the text as with T for the blank between date and time.
pub open spec fn local_time_read(text: Seq<char>) -> Option<CalendarTime> {
    match local_time_of(text) {
        Some(time) => Some(time),
        None => match with_t(text) {
            Some(joined) => local_time_of(joined),
            None => None,
        },
    }
}

/// What `first_blank_from` finds is the first such position: a blank between two digits
/// that no other, from `from` on, precedes; it finds none only where there is none.
pub proof fn lemma_first_blank_is_first(text: Seq<char>, from: int)
    requires
        0 <= from,
    ensures
        match first_blank_from(text, from) {
            Some(at) => {
                &&& from <= at
                &&& blank_between_digits(text, at)
                &&& forall|k: int| from <= k < at ==> !blank_between_digits(text, k)
            },
            None => forall|k: int| from <= k ==> !blank_between_digits(text, k),
        },
    decreases text.len() - from,
{
    if from < text.len() && !blank_between_digits(text, from) {
        lemma_first_blank_is_first(text, from + 1);
    }
}

/// A text that `chrono` reads as it stands is read as `chrono` reads it; any other is
/// read as `chrono` reads it with date and time joined.
pub proof fn lemma_local_time_read(text: Seq<char>)
    ensures
        local_time_of(text) is Some ==> local_time_read(text) == local_time_of(text),
        local_time_of(text) is None && with_t(text) is Some ==> local_time_read(text)
            == local_time_of(with_t(text)->0),
        local_time_of(text) is None && with_t(text) is None ==> local_time_read(text) is None,
        with_t(text) matches Some(joined) ==> joined.len() == text.len(),
{
    lemma_first_blank_is_first(text, 0);
}

/// From the last position of a text on, no blank stands between two digits.
proof fn lemma_no_blank_at_end(text: Seq<char>, from: int)
    requires
        from >= text.len() - 1,
    ensures
        first_blank_from(text, from) is None,
    decreases text.len() - from,
{
    if from < text.len() {
        lemma_no_blank_at_end(text, from + 1);
    }
}

/// Whether `c` is a decimal digit.
pub fn is_digit_char(c: char) -> (digit: bool)
    ensures
        digit == is_digit(c),
{
    c == '0' || c == '1' || c == '2' || c == '3' || c == '4' || c == '5' || c == '6' || c == '7'
        || c == '8' || c == '9'
}

/// Joins date and time: puts the letter T for the first blank of `text` that stands
/// between two digits.
pub fn join_date_and_time(text: &str) -> (joined: Option<String>)
    ensures
        joined.deep_view() == with_t(text@),
{
    let n = text.unicode_len();
    if n < 3 {
        proof {
            if n > 0 {
                lemma_no_blank_at_end(text@, 1);
            }
        }
        return None;
    }
    let mut at: usize = 1;
    while at + 1 < n
        invariant
            n == text@.len(),
            1 <= at <= n - 1,
            first_blank_from(text@, 0) == first_blank_from(text@, at as int),
        decreases n - at,
    {
        if text.get_char(at) == ' ' && is_digit_char(text.get_char(at - 1)) && is_digit_char(
            text.get_char(at + 1),
        ) {
            let mut joined = String::from_str(text.substring_char(0, at));
            joined.append("T");
            joined.append(text.substring_char(at + 1, n));
            proof {
                reveal_strlit("T");
                assert(joined@ =~= text@.update(at as int, 'T'));
            }
            return Some(joined);
        }
        at = at + 1;
    }
    proof {
        lemma_no_blank_at_end(text@, at as int);
    }
    None
}

/// Reads a local date and time, written with T or with a blank between date and time.
pub fn read_local_time(text: &str) -> (read: Option<CalendarTime>)
    ensures
        read == local_time_read(text@),
        read matches Some(time) ==> time.is_calendar_time(),
{
    match parse_local_time(text) {
        Some(time) => Some(time),
        None => match join_date_and_time(text) {
            Some(joined) => parse_local_time(joined.as_str()),
            None => None,
        },
    }
}

/// Why a file could not be named.
#[derive(Clone, Copy, Debug, PartialEq, Eq, Structural)]
pub struct BadLocalTime;

/// The name of the output file for a move whose local time text is `local_time`, if
/// that text is a date and time.
pub open spec fn file_name_of(local_time: Seq<char>) -> Option<Seq<char>> {
    match local_time_read(local_time) {
        Some(time) => Some(time.move_file_name()),
        None => None,
    }
}

/// Names the output file after the local time `local_time`, written with T or with a
/// blank between date and time; fails if the text is not a date and time.
pub fn file_name_for(local_time: &str) -> (name: Result<String, BadLocalTime>)
    ensures
        name is Ok == file_name_of(local_time@) is Some,
        name matches Ok(text) ==> Some(text@) == file_name_of(local_time@),
{
    match read_local_time(local_time) {
        Some(time) => file_name_at(&time),
        None => Err(BadLocalTime),
    }
}

/// Names the output file after a local time given by its fields.
pub fn file_name_at(time: &CalendarTime) -> (name: Result<String, BadLocalTime>)
    ensures
        time.is_calendar_time() ==> name is Ok,
        name matches Ok(text) ==> text@ == time.move_file_name(),
{
    match format_file_name(time) {
        Some(text) => Ok(text),
        None => Err(BadLocalTime),
    }
}

/// Writes a UTC time in RFC 3339 form with milliseconds; `None` only for fields that
/// name no moment.
pub fn stamp_at(time: &CalendarTime) -> (stamp: Option<String>)
    ensures
        time.is_calendar_time() ==> stamp is Some,
        stamp matches Some(text) ==> text@ == time.rfc3339_millis(),
{
    format_rfc3339_millis(time)
}

} // verus!
