//! The weeks that the newsletter covers, and its subject. Weeks begin on
//! Monday at midnight in Berlin.
use vstd::prelude::*;
use vstd::string::*;
use crate::text::{decimal, i64_to_string, signed_decimal, u64_to_string};
use crate::trusted::{
    berlin_day, berlin_iso_week, berlin_midnight, in_calendar, to_berlin_day, to_berlin_iso_week,
    to_berlin_midnight, FIRST_INSTANT, LAST_DAY, LAST_INSTANT,
};

verus! {

/// Seven days, in microseconds.
pub const WEEK_MICROS: i64 = 604800000000;

/// The two weeks after the present one: the instants at which the next week
/// and the week after it begin, and the instant at which the week after
/// ends.
#[derive(Clone, Copy, Debug, PartialEq, Eq, Structural)]
pub struct NewsletterRanges {
    pub next_week_start: i64,
    pub week_after_start: i64,
    pub week_after_end: i64,
}

/// The ranges for a day in Berlin that lies `days_from_monday` days after the
/// Monday of its week, given the instants at which the two following Mondays
/// begin. There are none where a Monday lies beyond the calendar.
pub open spec fn ranges_from(
    next_monday: Option<i64>,
    following_monday: Option<i64>,
) -> Option<NewsletterRanges> {
    match (next_monday, following_monday) {
        (Some(next), Some(following)) => if following + WEEK_MICROS <= i64::MAX {
            Some(
                NewsletterRanges {
                    next_week_start: next,
                    week_after_start: following,
                    week_after_end: (following + WEEK_MICROS) as i64,
                },
            )
        } else {
            None
        },
        _ => None,
    }
}

/// The day on which the week after the week of `day` begins, where `day` lies
/// `days_from_monday` days after its Monday; `weeks` counts the weeks ahead.
pub open spec fn monday_after(day: i32, days_from_monday: u32, weeks: int) -> int {
    day - days_from_monday + 7 * weeks
}

/// The instant at which a day of the years 1 to 9999 begins in Berlin; the day
/// is counted from January 1 of the year 1 as day 1.
pub open spec fn day_start(day: int) -> Option<i64> {
    if 1 <= day <= LAST_DAY {
        berlin_midnight(day as i32)
    } else {
        None
    }
}

/// The instant at which the Monday `weeks` weeks after the week of `day`
/// begins in Berlin.
pub open spec fn monday_start(day: i32, days_from_monday: u32, weeks: int) -> Option<i64> {
    day_start(monday_after(day, days_from_monday, weeks))
}

/// The ranges of the newsletter at `now`, an instant of the years 0 to 9999.
pub open spec fn newsletter_ranges(now: i64) -> Option<NewsletterRanges> {
    if !in_calendar(now) {
        None
    } else {
        match berlin_day(now) {
            Some((day, days_from_monday)) => ranges_from(
                monday_start(day, days_from_monday, 1),
                monday_start(day, days_from_monday, 2),
            ),
            None => None,
        }
    }
}

/// The instant at which a day begins in Berlin; the day is counted from January
/// 1 of the year 1 as day 1.
pub fn start_of_day_utc(day: i32) -> (instant: Option<i64>)
    ensures
        instant == day_start(day as int),
{
    if 1 <= day && day <= LAST_DAY {
        to_berlin_midnight(day)
    } else {
        None
    }
}

fn start_of_monday(day: i32, days_from_monday: u32, weeks: i64) -> (instant: Option<i64>)
    requires
        1 <= weeks <= 2,
    ensures
        instant == monday_start(day, days_from_monday, weeks as int),
{
    let monday: i64 = day as i64 - days_from_monday as i64 + 7 * weeks;
    if monday < i32::MIN as i64 || monday > i32::MAX as i64 {
        None
    } else {
        start_of_day_utc(monday as i32)
    }
}

/// The ranges for the given Mondays.
pub fn ranges_of(next_monday: Option<i64>, following_monday: Option<i64>) -> (ranges: Option<
    NewsletterRanges,
>)
    ensures
        ranges == ranges_from(next_monday, following_monday),
{
    match (next_monday, following_monday) {
        (Some(next), Some(following)) => {
            if following <= i64::MAX - WEEK_MICROS {
                Some(
                    NewsletterRanges {
                        next_week_start: next,
                        week_after_start: following,
                        week_after_end: following + WEEK_MICROS,
                    },
                )
            } else {
                None
            }
        },
        _ => None,
    }
}

/// Works out the ranges of the newsletter at `now`.
pub fn compute_newsletter_ranges(now: i64) -> (ranges: Option<NewsletterRanges>)
    ensures
        ranges == newsletter_ranges(now),
{
    if now < FIRST_INSTANT || now > LAST_INSTANT {
        return None;
    }
    match to_berlin_day(now) {
        Some((day, days_from_monday)) => ranges_of(
            start_of_monday(day, days_from_monday, 1),
            start_of_monday(day, days_from_monday, 2),
        ),
        None => None,
    }
}

/// The subject of the newsletter for an ISO week.
pub open spec fn subject_for(year: i32, week: u32) -> Seq<char> {
    "THI Campus Live Events – Newsletter KW "@ + decimal(week as nat) + " "@ + signed_decimal(
        year as int,
    )
}

/// The subject of the newsletter for the week that begins at
/// `next_week_start`, an instant of the years 0 to 9999.
pub open spec fn newsletter_subject(next_week_start: i64) -> Option<Seq<char>> {
    if !in_calendar(next_week_start) {
        None
    } else {
        match berlin_iso_week(next_week_start) {
            Some((year, week)) => Some(subject_for(year, week)),
            None => None,
        }
    }
}

/// Writes the subject of the newsletter for an ISO week.
pub fn subject_of_week(year: i32, week: u32) -> (subject: String)
    ensures
        subject@ == subject_for(year, week),
{
    let mut subject = "THI Campus Live Events – Newsletter KW ".to_string();
    subject.append(u64_to_string(week as u64).as_str());
    subject.append(" ");
    subject.append(i64_to_string(year as i64).as_str());
    subject
}

/// Writes the subject of the newsletter for the week that begins at
/// `next_week_start`.
pub fn build_newsletter_subject(next_week_start: i64) -> (subject: Option<String>)
    ensures
        crate::text::opt_text(subject) == newsletter_subject(next_week_start),
{
    if next_week_start < FIRST_INSTANT || next_week_start > LAST_INSTANT {
        return None;
    }
    match to_berlin_iso_week(next_week_start) {
        Some((year, week)) => Some(subject_of_week(year, week)),
        None => None,
    }
}

/// Whether an event that starts at `start` belongs to the next week rather
/// than to the week after.
pub fn in_next_week(start: i64, ranges: &NewsletterRanges) -> (next: bool)
    ensures
        next == (start < ranges.week_after_start),
{
    start < ranges.week_after_start
}

} // verus!
