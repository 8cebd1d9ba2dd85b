//! The session's start time as the report shows it: in the local time zone
//! of the machine that exports.

use crate::error::ReportError;
use crate::text::decimal;
use chrono::TimeZone;
use vstd::prelude::*;
use vstd::string::*;

verus! {

/// The first millisecond, counted from the Unix epoch, that the calendar
/// reaches: the start of 1 January of the year -262143.
pub const FIRST_MILLISECOND: i64 = -8_334_601_228_800_000;

/// The last millisecond that the calendar reaches: the end of 31 December of
/// the year 262142.
pub const LAST_MILLISECOND: i64 = 8_210_266_876_799_999;

/// Whether `millis` milliseconds since the Unix epoch is a time that the
/// calendar reaches.
pub open spec fn is_calendar_time(millis: i64) -> bool {
    FIRST_MILLISECOND <= millis <= LAST_MILLISECOND
}

/// The format that stamps the export folder and the report file.
pub open spec fn stamp_pattern() -> Seq<char> {
    "%Y-%m-%d-%H%M"@
}

/// The format of the date in the report's header.
pub open spec fn date_pattern() -> Seq<char> {
    "%-d %B %Y"@
}

/// The format of the time of day in the report's header.
pub open spec fn time_pattern() -> Seq<char> {
    "%H:%M"@
}

/// The format of the time zone in the report's header.
pub open spec fn zone_pattern() -> Seq<char> {
    "%Z"@
}

/// Whether `pattern` is one of the formats that the report is written with.
pub open spec fn is_report_pattern(pattern: Seq<char>) -> bool {
    ||| pattern == stamp_pattern()
    ||| pattern == date_pattern()
    ||| pattern == time_pattern()
    ||| pattern == zone_pattern()
}

/// Whether `c` is one of the digits `0` to `9`.
pub open spec fn is_digit(c: char) -> bool {
    0x30 <= c as u32 <= 0x39
}

/// The number that the digit `c` writes.
pub open spec fn digit_value(c: char) -> int {
    (c as u32) - 0x30
}

/// Whether `tens` and `ones` write, as two digits, a number from `low` to
/// `high`.
pub open spec fn is_two_digit(tens: char, ones: char, low: int, high: int) -> bool {
    &&& is_digit(tens)
    &&& is_digit(ones)
    &&& low <= 10 * digit_value(tens) + digit_value(ones) <= high
}

/// Whether `c` is a plus or a minus sign.
pub open spec fn is_sign(c: char) -> bool {
    c == '+' || c == '-'
}

/// Whether `s` holds digits alone.
pub open spec fn all_digits(s: Seq<char>) -> bool {
    forall|i: int| 0 <= i < s.len() ==> is_digit(#[trigger] s[i])
}

/// Whether `s` has the shape of a year: four digits, or a sign and four
/// digits or more, which is how a year before 0 or after 9999 is written.
pub open spec fn is_year_text(s: Seq<char>) -> bool {
    ||| s.len() == 4 && all_digits(s)
    ||| s.len() >= 5 && is_sign(s[0]) && all_digits(s.skip(1))
}

/// Whether `s` has the shape of a stamp: a year, a month from 01 to 12, a
/// day from 01 to 31, and an hour from 00 to 23 with a minute from 00 to 59
/// behind it, parted by hyphens, as in `2023-11-14-2213`.
pub open spec fn is_stamp_text(s: Seq<char>) -> bool {
    let n = s.len() as int;
    &&& n >= 15
    &&& is_year_text(s.take(n - 11))
    &&& s[n - 11] == '-'
    &&& is_two_digit(s[n - 10], s[n - 9], 1, 12)
    &&& s[n - 8] == '-'
    &&& is_two_digit(s[n - 7], s[n - 6], 1, 31)
    &&& s[n - 5] == '-'
    &&& is_two_digit(s[n - 4], s[n - 3], 0, 23)
    &&& is_two_digit(s[n - 2], s[n - 1], 0, 59)
}

/// Whether `s` has the shape of a time of day: an hour from 00 to 23, a
/// colon and a minute from 00 to 59, as in `22:13`.
pub open spec fn is_clock_text(s: Seq<char>) -> bool {
    &&& s.len() == 5
    &&& is_two_digit(s[0], s[1], 0, 23)
    &&& s[2] == ':'
    &&& is_two_digit(s[3], s[4], 0, 59)
}

/// The English name of the month with the number `month`, from 1 to 12.
pub open spec fn month_name(month: int) -> Seq<char> {
    if month == 1 {
        "January"@
    } else if month == 2 {
        "February"@
    } else if month == 3 {
        "March"@
    } else if month == 4 {
        "April"@
    } else if month == 5 {
        "May"@
    } else if month == 6 {
        "June"@
    } else if month == 7 {
        "July"@
    } else if month == 8 {
        "August"@
    } else if month == 9 {
        "September"@
    } else if month == 10 {
        "October"@
    } else if month == 11 {
        "November"@
    } else {
        "December"@
    }
}

/// A date written as the day without a leading zero, the month's name and
/// the year, parted by single spaces, as in `14 November 2023`.
pub open spec fn date_text(day: int, month: int, year: Seq<char>) -> Seq<char> {
    decimal(day as nat) + seq![' '] + month_name(month) + seq![' '] + year
}

/// Whether `s` has the shape of a date: `date_text` of a day from 1 to 31, a
/// month from 1 to 12 and a year.
pub open spec fn is_date_text(s: Seq<char>) -> bool {
    exists|day: int, month: int, year: Seq<char>|
        1 <= day <= 31 && 1 <= month <= 12 && is_year_text(year) && s == #[trigger] date_text(
            day,
            month,
            year,
        )
}

/// Whether `s` has the shape of a time zone as the calendar names it: the
/// offset from UTC as a sign, hours up to 23, a colon and minutes up to 59,
/// as in `+01:00`, with a colon and seconds behind it where the offset has
/// odd seconds.
pub open spec fn is_zone_text(s: Seq<char>) -> bool {
    &&& s.len() == 6 || s.len() == 9
    &&& is_sign(s[0])
    &&& is_two_digit(s[1], s[2], 0, 23)
    &&& s[3] == ':'
    &&& is_two_digit(s[4], s[5], 0, 59)
    &&& s.len() == 9 ==> s[6] == ':' && is_two_digit(s[7], s[8], 1, 59)
}

/// Whether `text` has the shape that the format `pattern` of the report
/// gives.
pub open spec fn is_formatted(pattern: Seq<char>, text: Seq<char>) -> bool {
    &&& pattern == stamp_pattern() ==> is_stamp_text(text)
    &&& pattern == date_pattern() ==> is_date_text(text)
    &&& pattern == time_pattern() ==> is_clock_text(text)
    &&& pattern == zone_pattern() ==> is_zone_text(text)
}

/// Whether `seconds` is an offset of a time zone from UTC: less than a day
/// to either side.
pub open spec fn is_day_offset(seconds: i32) -> bool {
    -86_400 < seconds < 86_400
}

/// The instant `millis` milliseconds after the Unix epoch, as a clock
/// `offset_seconds` east of UTC shows it, written in the strftime format
/// `pattern`.
pub uninterp spec fn formatted_at(millis: i64, offset_seconds: i32, pattern: Seq<char>) -> Seq<
    char,
>;

/// `chrono::Local.timestamp_millis_opt` and `chrono::DateTime::offset`: how
/// many seconds local time lies east of UTC at the instant `millis`
/// milliseconds after the Unix epoch. chrono knows the instant exactly when
/// its date in UTC lies in its calendar, which runs from the year -262143
/// to the year 262142; the offset depends on the machine's time zone and is
/// always less than a day.
#[verifier::external_body]
fn local_offset(millis: i64) -> (r: Option<i32>)
    ensures
        r is Some <==> is_calendar_time(millis),
        r matches Some(seconds) ==> is_day_offset(seconds),
{
    match chrono::Local.timestamp_millis_opt(millis).single() {
        Some(at) => Some(at.offset().local_minus_utc()),
        None => None,
    }
}

/// `chrono::FixedOffset::east_opt`, `timestamp_millis_opt` and
/// `chrono::DateTime::format`: the instant `millis` milliseconds after the
/// Unix epoch at the offset `offset_seconds`, written in the strftime format
/// `pattern`. chrono knows the instant exactly when its date in UTC lies in
/// its calendar. What is written is fixed by the instant, the offset and the
/// format: `%Y` writes a year in four digits, or signed where it lies
/// outside 0 to 9999, `%m`, `%d`, `%H` and `%M` write two digits, `%-d` the
/// day without padding, `%B` the month's English name and `%Z` the offset.
/// The formats of the report are well formed, which is what chrono needs to
/// write one out.
#[verifier::external_body]
fn format_at(millis: i64, offset_seconds: i32, pattern: &str) -> (r: Option<String>)
    requires
        is_day_offset(offset_seconds),
        is_report_pattern(pattern@),
    ensures
        r is Some <==> is_calendar_time(millis),
        r matches Some(text) ==> text@ == formatted_at(millis, offset_seconds, pattern@),
        r matches Some(text) ==> is_formatted(pattern@, text@),
{
    match chrono::FixedOffset::east_opt(offset_seconds) {
        Some(zone) => match zone.timestamp_millis_opt(millis).single() {
            Some(at) => Some(at.format(pattern).to_string()),
            None => None,
        },
        None => None,
    }
}

/// A session's start in local time, in the four forms that a report uses.
#[derive(Clone, Debug)]
pub struct LocalStart {
    /// Year, month, day, hour and minute, as in `2023-11-14-2213`.
    pub stamp: String,
    /// The date, as in `14 November 2023`.
    pub date: String,
    /// The time of day, as in `22:13`.
    pub time: String,
    /// The time zone as the calendar names it, as in `+01:00`.
    pub zone: String,
}

/// What a `LocalStart` holds, as plain text.
pub struct LocalStartView {
    pub stamp: Seq<char>,
    pub date: Seq<char>,
    pub time: Seq<char>,
    pub zone: Seq<char>,
}

impl View for LocalStart {
    type V = LocalStartView;

    open spec fn view(&self) -> LocalStartView {
        LocalStartView { stamp: self.stamp@, date: self.date@, time: self.time@, zone: self.zone@ }
    }
}

/// Whether the four texts of `start` have the shapes of a stamp, a date, a
/// time of day and a time zone.
pub open spec fn is_local_start(start: LocalStartView) -> bool {
    &&& is_stamp_text(start.stamp)
    &&& is_date_text(start.date)
    &&& is_clock_text(start.time)
    &&& is_zone_text(start.zone)
}

/// The start of a session at the instant `millis` milliseconds after the
/// Unix epoch, as a clock `offset_seconds` east of UTC shows it.
pub open spec fn start_at(millis: i64, offset_seconds: i32) -> LocalStartView {
    LocalStartView {
        stamp: formatted_at(millis, offset_seconds, stamp_pattern()),
        date: formatted_at(millis, offset_seconds, date_pattern()),
        time: formatted_at(millis, offset_seconds, time_pattern()),
        zone: formatted_at(millis, offset_seconds, zone_pattern()),
    }
}

/// Reads a session's start time, given in milliseconds since the Unix epoch,
/// as a clock `offset_seconds` east of UTC shows it. A time that the
/// calendar does not reach is an error; every other time is read.
pub fn start_at_offset(started_at: i64, offset_seconds: i32) -> (r: Result<
    LocalStart,
    ReportError,
>)
    requires
        is_day_offset(offset_seconds),
    ensures
        r is Ok <==> is_calendar_time(started_at),
        r matches Ok(start) ==> start@ == start_at(started_at, offset_seconds) && is_local_start(
            start@,
        ),
        r matches Err(e) ==> e == ReportError::InvalidStartedAt,
{
    let stamp: Option<String> = format_at(started_at, offset_seconds, "%Y-%m-%d-%H%M");
    let date: Option<String> = format_at(started_at, offset_seconds, "%-d %B %Y");
    let time: Option<String> = format_at(started_at, offset_seconds, "%H:%M");
    let zone: Option<String> = format_at(started_at, offset_seconds, "%Z");
    match (stamp, date, time, zone) {
        (Some(stamp), Some(date), Some(time), Some(zone)) => Ok(
            LocalStart { stamp, date, time, zone },
        ),
        _ => Err(ReportError::InvalidStartedAt),
    }
}

/// Reads a session's start time, given in milliseconds since the Unix epoch,
/// in the local time zone. A time that the calendar does not reach is an
/// error; every other time is read as the local clock shows it: the four
/// texts are the start time written at one offset from UTC, which is the
/// machine's at that time.
pub fn local_start(started_at: i64) -> (r: Result<LocalStart, ReportError>)
    ensures
        r is Ok <==> is_calendar_time(started_at),
        r matches Ok(start) ==> exists|offset_seconds: i32|
            is_day_offset(offset_seconds) && start@ == #[trigger] start_at(
                started_at,
                offset_seconds,
            ),
        r matches Ok(start) ==> is_local_start(start@),
        r matches Err(e) ==> e == ReportError::InvalidStartedAt,
{
    match local_offset(started_at) {
        Some(offset_seconds) => start_at_offset(started_at, offset_seconds),
        None => Err(ReportError::InvalidStartedAt),
    }
}

} // verus!
