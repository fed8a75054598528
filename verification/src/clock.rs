//! Wall-clock readings and the names of the files that recordings go to.

use vstd::prelude::*;
use vstd::string::*;
use crate::text::owned;

verus! {

/// A local date and time, to the second.
pub struct Timestamp {
    pub year: i32,
    pub month: u32,
    pub day: u32,
    pub hour: u32,
    pub minute: u32,
    pub second: u32,
}

/// Leap years of the proleptic Gregorian calendar.
pub open spec fn is_leap_year(y: int) -> bool {
    (y % 4 == 0 && y % 100 != 0) || y % 400 == 0
}

/// The number of days in month `m` (1 to 12) of year `y`.
pub open spec fn days_in_month(y: int, m: int) -> int {
    if m == 2 {
        if is_leap_year(y) { 29 } else { 28 }
    } else if m == 4 || m == 6 || m == 9 || m == 11 {
        30
    } else {
        31
    }
}

/// The earliest and latest years that chrono's `NaiveDate` holds.
pub open spec fn min_year() -> int {
    -262143
}

pub open spec fn max_year() -> int {
    262142
}

/// A calendar date and a time of day, with no leap second, in chrono's range.
pub open spec fn valid_date_time(
    year: i32,
    month: u32,
    day: u32,
    hour: u32,
    minute: u32,
    second: u32,
) -> bool {
    &&& min_year() <= year <= max_year()
    &&& 1 <= month <= 12
    &&& 1 <= day <= days_in_month(year as int, month as int)
    &&& hour < 24
    &&& minute < 60
    &&& second < 60
}

impl Timestamp {
    pub open spec fn valid(self) -> bool {
        valid_date_time(self.year, self.month, self.day, self.hour, self.minute, self.second)
    }

    /// Whether this is a date and time that chrono holds.
    pub fn is_valid(&self) -> (b: bool)
        ensures
            b == self.valid(),
    {
        if self.year < -262143 || self.year > 262142 {
            return false;
        }
        if self.month < 1 || self.month > 12 || self.day < 1 {
            return false;
        }
        if self.hour >= 24 || self.minute >= 60 || self.second >= 60 {
            return false;
        }
        // shifted by a multiple of 400 years, so that leap years stay leap years
        let y: u32 = (self.year as i64 + 262400) as u32;
        let leap: bool = (y % 4 == 0 && y % 100 != 0) || y % 400 == 0;
        assert(leap == is_leap_year(self.year as int)) by {
            let yi: int = self.year as int;
            assert(y as int == yi + 262400);
            assert((yi + 262400) % 4 == yi % 4);
            assert((yi + 262400) % 100 == yi % 100);
            assert((yi + 262400) % 400 == yi % 400);
        }
        let days: u32 = if self.month == 2 {
            if leap { 29 } else { 28 }
        } else if self.month == 4 || self.month == 6 || self.month == 9 || self.month == 11 {
            30
        } else {
            31
        };
        self.day <= days
    }
}

/// The ASCII digit for `d` (below 10).
pub open spec fn digit_char(d: nat) -> char {
    (d + '0' as nat) as char
}

/// `n` (below 100) in two digits.
pub open spec fn two_digits(n: nat) -> Seq<char> {
    seq![digit_char(n / 10), digit_char(n % 10)]
}

/// `n` (below 10000) in four digits.
pub open spec fn four_digits(n: nat) -> Seq<char> {
    two_digits(n / 100) + two_digits(n % 100)
}

/// `n` in decimal, with no leading zero.
pub open spec fn decimal_digits(n: nat) -> Seq<char>
    decreases n,
{
    if n < 10 {
        seq![digit_char(n)]
    } else {
        decimal_digits(n / 10) + seq![digit_char(n % 10)]
    }
}

/// `n` in decimal, with leading zeros up to `width` digits.
pub open spec fn zero_padded(n: nat, width: nat) -> Seq<char> {
    let d = decimal_digits(n);
    if d.len() >= width {
        d
    } else {
        Seq::new((width - d.len()) as nat, |i: int| '0') + d
    }
}

/// How `%Y` writes a year: four digits from 0 to 9999, otherwise a sign and
/// at least four digits.
pub open spec fn year_text(y: int) -> Seq<char> {
    if 0 <= y <= 9999 {
        four_digits(y as nat)
    } else if y > 9999 {
        seq!['+'] + zero_padded(y as nat, 4)
    } else {
        seq!['-'] + zero_padded((-y) as nat, 4)
    }
}

/// `%Y-%m-%d_%H.%M.%S`.
pub open spec fn stamp_text(
    year: i32,
    month: u32,
    day: u32,
    hour: u32,
    minute: u32,
    second: u32,
) -> Seq<char> {
    year_text(year as int) + seq!['-'] + two_digits(month as nat) + seq!['-'] + two_digits(
        day as nat,
    ) + seq!['_'] + two_digits(hour as nat) + seq!['.'] + two_digits(minute as nat) + seq!['.']
        + two_digits(second as nat)
}

/// Calls chrono's `NaiveDate::from_ymd_opt`, `NaiveDate::and_hms_opt` and
/// `format("%Y-%m-%d_%H.%M.%S")` on the result. Claimed: there is a result
/// exactly for the valid dates and times in chrono's year range, and it is
/// the fields as chrono's `write_year` and `write_two` write them: the month,
/// day, hour, minute and second in two digits, a year from 0 to 9999 in four,
/// any other year with its sign and at least four digits.
#[verifier::external_body]
fn chrono_format_stamp(
    year: i32,
    month: u32,
    day: u32,
    hour: u32,
    minute: u32,
    second: u32,
) -> (res: Option<String>)
    ensures
        res is Some <==> valid_date_time(year, month, day, hour, minute, second),
        res matches Some(s) ==> s@ == stamp_text(year, month, day, hour, minute, second),
{
    match chrono::NaiveDate::from_ymd_opt(year, month, day) {
        Some(date) => match date.and_hms_opt(hour, minute, second) {
            Some(t) => Some(t.format("%Y-%m-%d_%H.%M.%S").to_string()),
            None => None,
        },
        None => None,
    }
}

/// The name of a recording file started at `now`.
pub open spec fn record_file_name_spec(now: Timestamp) -> Seq<char> {
    "SerialWizard_"@ + stamp_text(now.year, now.month, now.day, now.hour, now.minute, now.second)
        + ".txt"@
}

/// The name of the file that a recording started at `now` is written to:
/// `SerialWizard_YYYY-MM-DD_HH.MM.SS.txt`.
pub fn record_file_name(now: &Timestamp) -> (name: Option<String>)
    ensures
        name is Some <==> now.valid(),
        name matches Some(n) ==> n@ == record_file_name_spec(*now),
{
    match chrono_format_stamp(now.year, now.month, now.day, now.hour, now.minute, now.second) {
        Some(stamp) => {
            let mut name = owned("SerialWizard_");
            name.append(stamp.as_str());
            name.append(".txt");
            Some(name)
        },
        None => None,
    }
}

} // verus!
