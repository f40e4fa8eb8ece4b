//! Calendar dates, held as day numbers, and the calls into `chrono` that
//! read them from text and tell their day of the week.

use chrono::Datelike;
use vstd::prelude::*;

verus! {

/// The format in which dates are written: year, month and day, as in `2025-07-06`.
pub const FMT: &'static str = "%Y-%m-%d";

/// Declares `chrono::ParseError`, the error of `chrono`'s parsing functions,
/// as a type whose values are carried through and never looked into.
#[verifier::external_type_specification]
#[verifier::external_body]
pub struct ExParseError(chrono::ParseError);

/// The day number of the date that `chrono` reads from `text` in the format
/// `format`, or the error that it gives where it reads no date. Day 1 is
/// January 1 of year 1 in the proleptic Gregorian calendar.
pub uninterp spec fn parsed_day_number(text: Seq<char>, format: Seq<char>) -> Result<
    int,
    chrono::ParseError,
>;

/// The day of the week, counted from Sunday as 0, on which `chrono` places
/// the day with the given number, or `None` where the day lies outside the
/// range of dates that `chrono` holds.
pub uninterp spec fn weekday_of_day_number(day_number: int) -> Option<int>;

/// Calls `chrono::NaiveDate::parse_from_str` and hands back the day number of
/// the date it read (`num_days_from_ce`), or its error. Trusted: the outcome is
/// the one that `parsed_day_number` names for this text and format.
#[verifier::external_body]
fn parse_day_number(text: &str, format: &str) -> (parsed: Result<i32, chrono::ParseError>)
    ensures
        match parsed {
            Ok(day_number) => parsed_day_number(text@, format@) matches Ok(named) && named
                == day_number,
            Err(error) => parsed_day_number(text@, format@) matches Err(named) && named == error,
        },
{
    match chrono::NaiveDate::parse_from_str(text, format) {
        Ok(date) => Ok(date.num_days_from_ce()),
        Err(error) => Err(error),
    }
}

/// Calls `chrono::NaiveDate::from_num_days_from_ce_opt` and, on the date it
/// gives, `weekday().num_days_from_sunday()`. Trusted: the outcome is the one
/// that `weekday_of_day_number` names for this day number, and a day of the
/// week is a number from 0, for Sunday, to 6, for Saturday.
#[verifier::external_body]
fn weekday_from_sunday(day_number: i32) -> (weekday: Option<u32>)
    ensures
        match weekday {
            Some(index) => weekday_of_day_number(day_number as int) == Some(index as int) && index
                < 7,
            None => weekday_of_day_number(day_number as int) is None,
        },
{
    match chrono::NaiveDate::from_num_days_from_ce_opt(day_number) {
        Some(date) => Some(date.weekday().num_days_from_sunday()),
        None => None,
    }
}

/// Whole weeks from day `from` to day `to`, rounded down: negative as soon as
/// `to` lies before `from`.
pub open spec fn weeks_between(from: int, to: int) -> int {
    (to - from) / 7
}

/// A text that is no date in the format [`FMT`]. It stands for the error
/// that `chrono` gave for the text.
#[derive(Debug)]
pub struct DateError {
    cause: chrono::ParseError,
}

impl View for DateError {
    type V = chrono::ParseError;

    closed spec fn view(&self) -> chrono::ParseError {
        self.cause
    }
}

impl DateError {
    /// What `chrono` found wrong with the text.
    pub fn cause(&self) -> (cause: chrono::ParseError)
        ensures
            cause == self@,
    {
        self.cause
    }
}

/// A calendar date. It stands for its day number, which counts the days of the
/// proleptic Gregorian calendar from January 1 of year 1 as day 1.
#[derive(Clone, Copy, Debug)]
pub struct Date {
    day_number: i32,
}

impl View for Date {
    type V = int;

    closed spec fn view(&self) -> int {
        self.day_number as int
    }
}

impl Date {
    /// The date with the given day number.
    pub fn from_day_number(day_number: i32) -> (date: Date)
        ensures
            date@ == day_number,
    {
        Date { day_number }
    }

    /// The day number of the date.
    pub fn day_number(&self) -> (day_number: i32)
        ensures
            day_number == self@,
    {
        self.day_number
    }

    /// Reads a date written in the format [`FMT`]; where the text is no such
    /// date, the error holds what `chrono` found wrong with it.
    pub fn parse(text: &str) -> (parsed: Result<Date, DateError>)
        ensures
            match parsed {
                Ok(date) => parsed_day_number(text@, FMT@) matches Ok(day_number) && day_number
                    == date@,
                Err(error) => parsed_day_number(text@, FMT@) matches Err(cause) && cause
                    == error@,
            },
    {
        match parse_day_number(text, FMT) {
            Ok(day_number) => Ok(Date { day_number }),
            Err(cause) => Err(DateError { cause }),
        }
    }

    /// Whole weeks from `earlier` to this date, rounded down.
    pub fn weeks_since(&self, earlier: Date) -> (weeks: i64)
        ensures
            weeks == weeks_between(earlier@, self@),
    {
        let days: i64 = self.day_number as i64 - earlier.day_number as i64;
        if days >= 0 {
            days / 7
        } else {
            -((6 - days) / 7)
        }
    }

    /// The day of the week, counted from Sunday as 0, or `None` for a date
    /// outside the range that `chrono` holds.
    pub fn weekday(&self) -> (weekday: Option<usize>)
        ensures
            match weekday {
                Some(index) => weekday_of_day_number(self@) == Some(index as int) && index < 7,
                None => weekday_of_day_number(self@) is None,
            },
    {
        match weekday_from_sunday(self.day_number) {
            Some(index) => Some(index as usize),
            None => None,
        }
    }
}

} // verus!
