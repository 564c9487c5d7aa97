//! The clock: the texts of the time label and of the date label.

use crate::decimal::digit_char;
use chrono::{NaiveDate, NaiveTime};
use vstd::prelude::*;

verus! {

/// The interval at which the time label is renewed, in seconds.
pub const CLOCK_PERIOD_SECS: u32 = 1;

/// `n`, which is under 100, written with two digits.
pub open spec fn two_digits(n: int) -> Seq<char> {
    seq![digit_char(n / 10), digit_char(n % 10)]
}

/// The time of day on a twelve-hour clock: the hour from 01 to 12, a colon,
/// the minute, a space, and `AM` or `PM`. There is no such text where the
/// hour is over 23 or the minute over 59.
pub open spec fn time_text(hour: u32, minute: u32) -> Option<Seq<char>> {
    if hour < 24 && minute < 60 {
        let hour12 = if hour % 12 == 0 {
            12
        } else {
            hour % 12
        };
        Some(
            two_digits(hour12 as int) + seq![':'] + two_digits(minute as int) + seq![' '] + (if hour
                < 12 {
                "AM"@
            } else {
                "PM"@
            }),
        )
    } else {
        None
    }
}

/// The text of the date label for a day of the calendar: the name of the
/// weekday, a line feed, then day, name of the month and year, as
/// `chrono` writes them for the format `%A\n%d %B %Y`; `None` where
/// `chrono` knows no such day.
pub uninterp spec fn date_text(year: i32, month: u32, day: u32) -> Option<Seq<char>>;

/// `NaiveTime::from_hms_opt` and `NaiveTime::format` of `chrono`, with the
/// format `%I:%M %p`. The first gives a time exactly for an hour under 24
/// and a minute under 60; the second then writes the hour of the
/// twelve-hour clock and the minute with two digits each, and `AM` before
/// noon, `PM` from noon on.
#[verifier::external_body]
fn format_time(hour: u32, minute: u32) -> (text: Option<String>)
    ensures
        match text {
            Some(t) => time_text(hour, minute) == Some(t@),
            None => time_text(hour, minute) is None,
        },
{
    match NaiveTime::from_hms_opt(hour, minute, 0) {
        Some(time) => Some(time.format("%I:%M %p").to_string()),
        None => None,
    }
}

/// `NaiveDate::from_ymd_opt` and `NaiveDate::format` of `chrono`, with the
/// format `%A\n%d %B %Y`. What they give depends on the three numbers
/// alone; it is named [`date_text`] and not stated further.
#[verifier::external_body]
fn format_date(year: i32, month: u32, day: u32) -> (text: Option<String>)
    ensures
        match text {
            Some(t) => date_text(year, month, day) == Some(t@),
            None => date_text(year, month, day) is None,
        },
{
    match NaiveDate::from_ymd_opt(year, month, day) {
        Some(date) => Some(date.format("%A\n%d %B %Y").to_string()),
        None => None,
    }
}

/// A moment of local time, to the minute.
#[derive(Clone, Copy, Debug, PartialEq, Eq)]
pub struct Moment {
    pub year: i32,
    pub month: u32,
    pub day: u32,
    pub hour: u32,
    pub minute: u32,
}

/// The texts of the two labels of the clock.
#[derive(Clone, Debug, PartialEq, Eq)]
pub struct ClockFace {
    pub time: String,
    pub date: String,
}

/// The clock face made of the two texts, where both are there.
pub fn clock_face(time: Option<String>, date: Option<String>) -> (face: Option<ClockFace>)
    ensures
        face == (match (time, date) {
            (Some(t), Some(d)) => Some(ClockFace { time: t, date: d }),
            _ => None,
        }),
{
    match (time, date) {
        (Some(t), Some(d)) => Some(ClockFace { time: t, date: d }),
        _ => None,
    }
}

/// The texts of the time label and the date label at `moment`; `None` where
/// `moment` is no time of day or no day of the calendar.
pub fn append_time_and_date_labels(moment: &Moment) -> (face: Option<ClockFace>)
    ensures
        match face {
            Some(f) => time_text(moment.hour, moment.minute) == Some(f.time@) && date_text(
                moment.year,
                moment.month,
                moment.day,
            ) == Some(f.date@),
            None => time_text(moment.hour, moment.minute) is None || date_text(
                moment.year,
                moment.month,
                moment.day,
            ) is None,
        },
{
    let time = format_time(moment.hour, moment.minute);
    let date = format_date(moment.year, moment.month, moment.day);
    clock_face(time, date)
}

} // verus!
