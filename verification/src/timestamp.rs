//! The moment of a scan, as it enters the name of the output file.
//!
//! The digits are written by `time::strftime`. The contract of the wrapper
//! says what it returns for the one format that the library uses; it is
//! assumed, not proved.

use time::ParseError as TimeError;
use vstd::prelude::*;

use crate::message::util::{decimal, digit};

verus! {

/// Declares `time::ParseError` as a type whose inside the verifier does not
/// see.
#[verifier::external_type_specification]
#[verifier::external_body]
pub struct ExTimeError(TimeError);

/// A number below 100 in two digits, with a leading zero where it is below
/// 10.
pub open spec fn two_digits(n: int) -> Seq<char>
    recommends
        0 <= n <= 99,
{
    seq![digit((n / 10) as nat), digit((n % 10) as nat)]
}

/// A date and a time of day in the compact form: the year as it is, then
/// month, day, an underscore, hour, minute and second, each in two digits.
pub open spec fn compact_time(
    year: int,
    month: int,
    day: int,
    hour: int,
    minute: int,
    second: int,
) -> Seq<char> {
    decimal(year as nat) + two_digits(month) + two_digits(day) + seq!['_'] + two_digits(hour)
        + two_digits(minute) + two_digits(second)
}

/// Calls `time::strftime` on a broken-down time with the given fields: years
/// since 1900, months since January, day of the month, hour, minute and
/// second. The other fields of the time are zero. Assumed: for the one
/// format that the library uses, a year from 0 on, a month in range and the
/// other fields below 100, the call succeeds and returns the compact form of
/// the date and the time. `strftime` refuses a month outside 0..=11, writes
/// the year after adding 1900 and the month after adding 1, and pads each
/// field but the year to two digits.
#[verifier::external_body]
pub(crate) fn strftime(
    format: &str,
    tm_year: i32,
    tm_mon: i32,
    tm_mday: i32,
    tm_hour: i32,
    tm_min: i32,
    tm_sec: i32,
) -> (r: Result<String, TimeError>)
    requires
        format@ == "%Y%m%d_%H%M%S"@,
        -1900 <= tm_year <= i32::MAX - 1900,
        0 <= tm_mon <= 11,
        0 <= tm_mday <= 99,
        0 <= tm_hour <= 99,
        0 <= tm_min <= 99,
        0 <= tm_sec <= 99,
    ensures
        r is Ok,
        r matches Ok(text) ==> text@ == compact_time(
            tm_year + 1900,
            tm_mon + 1,
            tm_mday as int,
            tm_hour as int,
            tm_min as int,
            tm_sec as int,
        ),
{
    time::strftime(
        format,
        &time::Tm {
            tm_sec, tm_min, tm_hour, tm_mday, tm_mon, tm_year,
            tm_wday: 0, tm_yday: 0, tm_isdst: 0, tm_utcoff: 0, tm_nsec: 0,
        },
    )
}

/// A calendar date and a time of day.
#[derive(Clone, Copy, Debug, PartialEq, Eq)]
pub struct Timestamp {
    year: u16,
    month: u8,
    day: u8,
    hour: u8,
    minute: u8,
    second: u8,
}

/// The mathematical content of a [`Timestamp`].
pub struct TimestampView {
    pub year: int,
    pub month: int,
    pub day: int,
    pub hour: int,
    pub minute: int,
    pub second: int,
}

impl TimestampView {
    /// Whether the fields are in the ranges of the calendar and the clock. A
    /// second of 60 is a leap second.
    pub open spec fn in_range(self) -> bool {
        &&& 0 <= self.year <= u16::MAX
        &&& 1 <= self.month <= 12
        &&& 1 <= self.day <= 31
        &&& 0 <= self.hour <= 23
        &&& 0 <= self.minute <= 59
        &&& 0 <= self.second <= 60
    }

    /// The timestamp in the compact form, date before time, with an
    /// underscore between the two.
    pub open spec fn compact(self) -> Seq<char> {
        compact_time(self.year, self.month, self.day, self.hour, self.minute, self.second)
    }
}

impl View for Timestamp {
    type V = TimestampView;

    closed spec fn view(&self) -> TimestampView {
        TimestampView {
            year: self.year as int,
            month: self.month as int,
            day: self.day as int,
            hour: self.hour as int,
            minute: self.minute as int,
            second: self.second as int,
        }
    }
}

impl Timestamp {
    #[verifier::type_invariant]
    closed spec fn in_range(self) -> bool {
        self@.in_range()
    }

    /// The timestamp with the given fields, if each is in its range.
    pub fn new(year: u16, month: u8, day: u8, hour: u8, minute: u8, second: u8) -> (r: Option<
        Timestamp,
    >)
        ensures
            r is Some <==> (TimestampView {
                year: year as int,
                month: month as int,
                day: day as int,
                hour: hour as int,
                minute: minute as int,
                second: second as int,
            }).in_range(),
            r matches Some(t) ==> t@ == (TimestampView {
                year: year as int,
                month: month as int,
                day: day as int,
                hour: hour as int,
                minute: minute as int,
                second: second as int,
            }),
    {
        if 1 <= month && month <= 12 && 1 <= day && day <= 31 && hour <= 23 && minute <= 59
            && second <= 60 {
            Some(Timestamp { year, month, day, hour, minute, second })
        } else {
            None
        }
    }

    /// Writes the timestamp in its compact form.
    pub fn to_compact(&self) -> (text: String)
        ensures
            text@ == self@.compact(),
    {
        proof {
            use_type_invariant(self);
        }
        let r = strftime(
            "%Y%m%d_%H%M%S",
            self.year as i32 - 1900,
            self.month as i32 - 1,
            self.day as i32,
            self.hour as i32,
            self.minute as i32,
            self.second as i32,
        );
        match r {
            Ok(text) => text,
            Err(_) => vstd::pervasive::unreached(),
        }
    }
}

} // verus!
