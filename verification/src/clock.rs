//! Wall-clock time: the instant to show, the reading of the clock in a zone,
//! and the text of the tray title.
//!
//! The zone database says how far a zone is from UTC at an instant; the
//! calendar turns seconds into a date and a time of day. Both are chrono's.
//! This module adds the offset to the instant and lays the reading out.

use std::str::FromStr;
use chrono::{Datelike, Offset, TimeZone, Timelike};
use vstd::prelude::*;
use crate::registry::Registry;

verus! {

/// The last instant that can be shown, in seconds since the Unix epoch: the
/// last second of the year 9999 in UTC.
pub const MAX_UNIX_SECONDS: i64 = 253_402_300_799;

/// The first year a reading can fall in.
pub const MIN_YEAR: i32 = 1;

/// The last year a reading can fall in: a zone ahead of UTC has entered it
/// while the instant is still in the year before.
pub const MAX_YEAR: i32 = 10_000;

/// The layout of the tray title in chrono's notation: month, day, hour and
/// minute, each of two digits.
pub const TITLE_PATTERN: &'static str = "%m-%d %H:%M";

/// A reading of the clock as a mathematical value.
pub struct WallClock {
    pub year: int,
    pub month: int,
    pub day: int,
    pub hour: int,
    pub minute: int,
}

/// Whether a year of the Gregorian calendar has a 29th of February.
pub open spec fn is_leap_year(year: int) -> bool {
    year % 4 == 0 && (year % 100 != 0 || year % 400 == 0)
}

/// The number of days of a month.
pub open spec fn days_in_month(year: int, month: int) -> int {
    if month == 2 {
        if is_leap_year(year) {
            29
        } else {
            28
        }
    } else if month == 4 || month == 6 || month == 9 || month == 11 {
        30
    } else {
        31
    }
}

/// Whether a reading is a date of the calendar and a time of day.
pub open spec fn wall_clock_valid(clock: WallClock) -> bool {
    &&& MIN_YEAR <= clock.year <= MAX_YEAR
    &&& 1 <= clock.month <= 12
    &&& 1 <= clock.day <= days_in_month(clock.year, clock.month)
    &&& 0 <= clock.hour < 24
    &&& 0 <= clock.minute < 60
}

/// An instant that the tray can show: whole seconds since the Unix epoch,
/// from 1970 to the end of the year 9999.
#[derive(Clone, Copy, Debug, PartialEq, Eq)]
pub struct Instant {
    seconds: i64,
}

impl View for Instant {
    type V = int;

    closed spec fn view(&self) -> int {
        self.seconds as int
    }
}

impl Instant {
    #[verifier::type_invariant]
    spec fn in_range(self) -> bool {
        0 <= self.seconds <= MAX_UNIX_SECONDS
    }

    /// The instant `seconds` after the Unix epoch, where the tray can show it.
    pub fn from_unix_seconds(seconds: i64) -> (instant: Option<Instant>)
        ensures
            instant is Some <==> 0 <= seconds <= MAX_UNIX_SECONDS,
            instant matches Some(at) ==> at@ == seconds,
    {
        if 0 <= seconds && seconds <= MAX_UNIX_SECONDS {
            Some(Instant { seconds })
        } else {
            None
        }
    }

    /// The instant that the tray shows for a clock that reads `seconds`: the
    /// same instant where the tray can show it, else the nearest one that it
    /// can.
    pub fn nearest(seconds: i64) -> (instant: Instant)
        ensures
            instant@ == (if seconds < 0 {
                0
            } else if seconds > MAX_UNIX_SECONDS {
                MAX_UNIX_SECONDS as int
            } else {
                seconds as int
            }),
    {
        if seconds < 0 {
            Instant { seconds: 0 }
        } else if seconds > MAX_UNIX_SECONDS {
            Instant { seconds: MAX_UNIX_SECONDS }
        } else {
            Instant { seconds }
        }
    }

    /// The seconds since the Unix epoch.
    pub fn unix_seconds(&self) -> (seconds: i64)
        ensures
            seconds == self@,
            0 <= seconds <= MAX_UNIX_SECONDS,
    {
        proof {
            use_type_invariant(self);
        }
        self.seconds
    }
}

/// A reading of the clock in some zone: a date and the time of day, to the
/// minute.
#[derive(Clone, Copy, Debug, PartialEq, Eq)]
pub struct LocalTime {
    year: i32,
    month: u32,
    day: u32,
    hour: u32,
    minute: u32,
}

impl View for LocalTime {
    type V = WallClock;

    closed spec fn view(&self) -> WallClock {
        WallClock {
            year: self.year as int,
            month: self.month as int,
            day: self.day as int,
            hour: self.hour as int,
            minute: self.minute as int,
        }
    }
}

/// The number of days of a month of a year from `MIN_YEAR` on.
fn month_length(year: i32, month: u32) -> (days: u32)
    requires
        MIN_YEAR <= year,
    ensures
        days == days_in_month(year as int, month as int),
{
    if month == 2 {
        if year % 4 == 0 && (year % 100 != 0 || year % 400 == 0) {
            29
        } else {
            28
        }
    } else if month == 4 || month == 6 || month == 9 || month == 11 {
        30
    } else {
        31
    }
}

impl LocalTime {
    #[verifier::type_invariant]
    spec fn valid(self) -> bool {
        wall_clock_valid(self@)
    }

    /// The reading with the given fields, where they make a date of the
    /// calendar and a time of day.
    pub fn new(year: i32, month: u32, day: u32, hour: u32, minute: u32) -> (time: Option<LocalTime>)
        ensures
            time is Some <==> wall_clock_valid(
                WallClock {
                    year: year as int,
                    month: month as int,
                    day: day as int,
                    hour: hour as int,
                    minute: minute as int,
                },
            ),
            time matches Some(reading) ==> reading@ == (WallClock {
                year: year as int,
                month: month as int,
                day: day as int,
                hour: hour as int,
                minute: minute as int,
            }),
    {
        if year < MIN_YEAR || year > MAX_YEAR || month < 1 || month > 12 || hour >= 24 || minute
            >= 60 {
            return None;
        }
        if day < 1 || day > month_length(year, month) {
            return None;
        }
        Some(LocalTime { year, month, day, hour, minute })
    }

    /// The year.
    pub fn year(&self) -> (year: i32)
        ensures
            year == self@.year,
    {
        self.year
    }

    /// The month, from 1.
    pub fn month(&self) -> (month: u32)
        ensures
            month == self@.month,
    {
        self.month
    }

    /// The day of the month, from 1.
    pub fn day(&self) -> (day: u32)
        ensures
            day == self@.day,
    {
        self.day
    }

    /// The hour of the day, from 0.
    pub fn hour(&self) -> (hour: u32)
        ensures
            hour == self@.hour,
    {
        self.hour
    }

    /// The minute of the hour, from 0.
    pub fn minute(&self) -> (minute: u32)
        ensures
            minute == self@.minute,
    {
        self.minute
    }
}

/// How many seconds the zone named `zone` is ahead of UTC at the instant
/// `unix_seconds`, by the zone database; `None` where the database has no
/// zone of that name or the calendar cannot hold the instant.
pub uninterp spec fn zone_offset(zone: Seq<char>, unix_seconds: int) -> Option<int>;

/// The date and time of day that lie `local_seconds` after the first midnight
/// of 1970, by the proleptic Gregorian calendar.
pub uninterp spec fn civil_time(local_seconds: int) -> WallClock;

/// Looks the zone up with `chrono_tz::Tz::from_str`, places the instant in it
/// with `TimeZone::timestamp_opt`, and reads the offset that holds there with
/// `Offset::fix` and `FixedOffset::local_minus_utc`. An unknown name gives
/// `None`, and so does an instant outside chrono's calendar. The contract
/// names the offset and claims of it what every `FixedOffset` keeps: it is
/// less than a day either way.
#[verifier::external_body]
fn zone_offset_seconds(zone: &str, unix_seconds: i64) -> (offset: Option<i32>)
    ensures
        match offset {
            Some(seconds) => zone_offset(zone@, unix_seconds as int) == Some(seconds as int)
                && -86_400 < seconds < 86_400,
            None => zone_offset(zone@, unix_seconds as int) is None,
        },
{
    let tz = chrono_tz::Tz::from_str(zone).ok()?;
    let placed = tz.timestamp_opt(unix_seconds, 0).single()?;
    Some(placed.offset().fix().local_minus_utc())
}

/// Turns seconds into a date and a time of day with
/// `chrono::DateTime::from_timestamp` and reads its year, month, day, hour
/// and minute. The contract names the reading and claims that it is a date
/// of the calendar and a time of day; the bounds keep the date between the
/// last day of 1969 and the first of the year 10000, well inside what chrono
/// can hold.
#[verifier::external_body]
fn civil_fields(local_seconds: i64) -> (time: LocalTime)
    requires
        -86_400 < local_seconds < MAX_UNIX_SECONDS + 86_400,
    ensures
        time@ == civil_time(local_seconds as int),
        wall_clock_valid(time@),
{
    let at = chrono::DateTime::from_timestamp(local_seconds, 0).unwrap_or_default();
    LocalTime {
        year: at.year(),
        month: at.month(),
        day: at.day(),
        hour: at.hour(),
        minute: at.minute(),
    }
}

/// Lays a reading out with chrono's `format`, for the one pattern that the
/// tray uses. Chrono documents `%m`, `%d`, `%H` and `%M` as the month, day,
/// hour and minute, each zero-padded to two digits, and copies every other
/// character of the pattern; the contract says so, character by character.
#[verifier::external_body]
fn chrono_format(time: &LocalTime, pattern: &str) -> (text: String)
    requires
        wall_clock_valid(time@),
        pattern@ == TITLE_PATTERN@,
    ensures
        text@ == title_text(time@),
{
    let date = chrono::NaiveDate::from_ymd_opt(time.year, time.month, time.day).unwrap_or_default();
    let at = date.and_hms_opt(time.hour, time.minute, 0).unwrap_or_default();
    at.format(pattern).to_string()
}

/// The decimal digit for a number from 0 to 9.
pub open spec fn digit(n: int) -> char {
    if n == 0 {
        '0'
    } else if n == 1 {
        '1'
    } else if n == 2 {
        '2'
    } else if n == 3 {
        '3'
    } else if n == 4 {
        '4'
    } else if n == 5 {
        '5'
    } else if n == 6 {
        '6'
    } else if n == 7 {
        '7'
    } else if n == 8 {
        '8'
    } else {
        '9'
    }
}

/// A number from 0 to 99 in two digits.
pub open spec fn two_digits(n: int) -> Seq<char> {
    seq![digit(n / 10), digit(n % 10)]
}

/// The tray title for a reading: `MM-DD HH:mm`.
pub open spec fn title_text(clock: WallClock) -> Seq<char> {
    two_digits(clock.month) + seq!['-'] + two_digits(clock.day) + seq![' '] + two_digits(
        clock.hour,
    ) + seq![':'] + two_digits(clock.minute)
}

/// Whether a character is a decimal digit.
pub open spec fn is_digit(c: char) -> bool {
    c == '0' || c == '1' || c == '2' || c == '3' || c == '4' || c == '5' || c == '6' || c == '7'
        || c == '8' || c == '9'
}

/// The number that a decimal digit stands for.
pub open spec fn digit_value(c: char) -> int {
    if c == '1' {
        1
    } else if c == '2' {
        2
    } else if c == '3' {
        3
    } else if c == '4' {
        4
    } else if c == '5' {
        5
    } else if c == '6' {
        6
    } else if c == '7' {
        7
    } else if c == '8' {
        8
    } else if c == '9' {
        9
    } else {
        0
    }
}

/// The number that the two digits from position `at` of a text stand for.
pub open spec fn number_at(text: Seq<char>, at: int) -> int {
    10 * digit_value(text[at]) + digit_value(text[at + 1])
}

/// Whether a text is a tray title, `MM-DD HH:mm`: eleven characters, digits
/// but for `-` after the month, a blank after the day and `:` after the hour;
/// the month from 01 to 12, the day from 01 to 31, the hour from 00 to 23 and
/// the minute from 00 to 59.
pub open spec fn is_title(text: Seq<char>) -> bool {
    &&& text.len() == 11
    &&& is_digit(text[0]) && is_digit(text[1])
    &&& text[2] == '-'
    &&& is_digit(text[3]) && is_digit(text[4])
    &&& text[5] == ' '
    &&& is_digit(text[6]) && is_digit(text[7])
    &&& text[8] == ':'
    &&& is_digit(text[9]) && is_digit(text[10])
    &&& 1 <= number_at(text, 0) <= 12
    &&& 1 <= number_at(text, 3) <= 31
    &&& 0 <= number_at(text, 6) <= 23
    &&& 0 <= number_at(text, 9) <= 59
}

/// Two digits stand for the number that they were written for.
proof fn two_digits_read_back(n: int)
    requires
        0 <= n <= 99,
    ensures
        is_digit(two_digits(n)[0]),
        is_digit(two_digits(n)[1]),
        10 * digit_value(two_digits(n)[0]) + digit_value(two_digits(n)[1]) == n,
{
    assert(0 <= n / 10 <= 9 && 0 <= n % 10 <= 9 && n == 10 * (n / 10) + n % 10);
}

/// The title of a valid reading is a title: it has the layout, and its
/// numbers are the month, the day, the hour and the minute of the reading.
pub proof fn title_text_is_title(clock: WallClock)
    requires
        wall_clock_valid(clock),
    ensures
        is_title(title_text(clock)),
        number_at(title_text(clock), 0) == clock.month,
        number_at(title_text(clock), 3) == clock.day,
        number_at(title_text(clock), 6) == clock.hour,
        number_at(title_text(clock), 9) == clock.minute,
{
    let text = title_text(clock);
    two_digits_read_back(clock.month);
    two_digits_read_back(clock.day);
    two_digits_read_back(clock.hour);
    two_digits_read_back(clock.minute);
    assert(text.len() == 11);
    assert(text[0] == two_digits(clock.month)[0] && text[1] == two_digits(clock.month)[1]);
    assert(text[3] == two_digits(clock.day)[0] && text[4] == two_digits(clock.day)[1]);
    assert(text[6] == two_digits(clock.hour)[0] && text[7] == two_digits(clock.hour)[1]);
    assert(text[9] == two_digits(clock.minute)[0] && text[10] == two_digits(clock.minute)[1]);
}

/// The seconds to show for a zone at an instant: the instant moved by the
/// zone's offset, and the instant itself where the zone has none.
pub open spec fn local_seconds(zone: Seq<char>, unix_seconds: int) -> int {
    match zone_offset(zone, unix_seconds) {
        Some(offset) => unix_seconds + offset,
        None => unix_seconds,
    }
}

/// The reading of the clock in the zone `id` at an instant, where `id` is in
/// the registry and the zone database knows its offset.
pub open spec fn zone_reading(registry: Seq<Seq<char>>, id: Seq<char>, unix_seconds: int) -> Option<
    WallClock,
> {
    if registry.contains(id) {
        match zone_offset(id, unix_seconds) {
            Some(offset) => Some(civil_time(unix_seconds + offset)),
            None => None,
        }
    } else {
        None
    }
}

/// An identifier that names no zone.
#[derive(Clone, Debug, PartialEq, Eq)]
pub struct InvalidTimezoneSelection {
    pub id: String,
}

/// The reading of a clock that is `offset_seconds` ahead of UTC, at the
/// instant `at`. Offsets of a day or more are no offsets: they give `None`.
pub fn local_time(at: Instant, offset_seconds: i32) -> (time: Option<LocalTime>)
    ensures
        time is Some <==> -86_400 < offset_seconds < 86_400,
        time matches Some(reading) ==> reading@ == civil_time(at@ + offset_seconds)
            && wall_clock_valid(reading@),
{
    if -86_400 < offset_seconds && offset_seconds < 86_400 {
        let seconds = at.unix_seconds();
        Some(civil_fields(seconds + offset_seconds as i64))
    } else {
        None
    }
}

/// The reading of the clock in the zone `id` at the instant `at`. It fails
/// for an identifier that is not in the registry, and for one whose offset
/// the zone database does not know.
pub fn now_at(registry: &Registry, id: &str, at: Instant) -> (reading: Result<
    LocalTime,
    InvalidTimezoneSelection,
>)
    ensures
        match reading {
            Ok(time) => zone_reading(registry@, id@, at@) == Some(time@) && wall_clock_valid(time@),
            Err(error) => zone_reading(registry@, id@, at@) is None && error.id@ == id@,
        },
{
    if !registry.is_valid(id) {
        return Err(InvalidTimezoneSelection { id: id.to_owned() });
    }
    let seconds = at.unix_seconds();
    match zone_offset_seconds(id, seconds) {
        Some(offset) => Ok(civil_fields(seconds + offset as i64)),
        None => Err(InvalidTimezoneSelection { id: id.to_owned() }),
    }
}

/// The reading to show for a zone, whatever the zone: where the zone database
/// has no offset for it, the reading is that of UTC.
pub fn reading_or_utc(zone: &str, at: Instant) -> (time: LocalTime)
    ensures
        time@ == civil_time(local_seconds(zone@, at@)),
        wall_clock_valid(time@),
{
    let seconds = at.unix_seconds();
    match zone_offset_seconds(zone, seconds) {
        Some(offset) => civil_fields(seconds + offset as i64),
        None => civil_fields(seconds),
    }
}

/// The reading of the clock in UTC at the instant `at`.
pub fn utc_time(at: Instant) -> (time: LocalTime)
    ensures
        time@ == civil_time(at@),
        wall_clock_valid(time@),
{
    civil_fields(at.unix_seconds())
}

/// The tray title for a reading, in the layout `MM-DD HH:mm`. Every reading
/// is a date of the calendar and a time of day, so the title's numbers are in
/// their ranges.
pub fn format_title(time: &LocalTime) -> (title: String)
    ensures
        wall_clock_valid(time@),
        title@ == title_text(time@),
        is_title(title@),
{
    proof {
        use_type_invariant(time);
        title_text_is_title(time@);
    }
    chrono_format(time, TITLE_PATTERN)
}

} // verus!
