use vstd::prelude::*;

use crate::text::push_char;

verus! {

/// Whether `year` is a leap year of the proleptic Gregorian calendar.
pub open spec fn is_leap_year(year: int) -> bool {
    year % 4 == 0 && (year % 100 != 0 || year % 400 == 0)
}

/// The number of days of `month` (1 to 12) in `year`.
pub open spec fn days_in_month(year: int, month: int) -> int {
    if month == 2 {
        if is_leap_year(year) { 29 } else { 28 }
    } else if month == 4 || month == 6 || month == 9 || month == 11 {
        30
    } else {
        31
    }
}

/// Whether the triple names a day that exists in the proleptic Gregorian calendar.
pub open spec fn is_calendar_date(year: int, month: int, day: int) -> bool {
    1 <= month <= 12 && 1 <= day <= days_in_month(year, month)
}

/// What chrono's `NaiveDate::parse_from_str(s, "%Y-%m-%d")` yields for the
/// text `s`, as year, month and day.
pub uninterp spec fn chrono_parsed_ymd(s: Seq<char>) -> Option<(i32, u32, u32)>;

/// A calendar day, written in storage as `YYYY-MM-DD`.
#[derive(Debug, Clone, Copy, PartialEq, Eq, Structural)]
pub struct Date {
    pub year: i32,
    pub month: u32,
    pub day: u32,
}

/// Relies on chrono's `NaiveDate::from_ymd_opt`: it gives a date exactly when
/// the month and day exist in that year (every year from 0 to 9999 lies
/// within chrono's range).
#[verifier::external_body]
fn chrono_date_exists(year: i32, month: u32, day: u32) -> (r: bool)
    requires
        0 <= year <= 9999,
    ensures
        r == is_calendar_date(year as int, month as int, day as int),
{
    chrono::NaiveDate::from_ymd_opt(year, month, day).is_some()
}

/// Relies on chrono's `NaiveDate::parse_from_str` with the format `%Y-%m-%d`:
/// the outcome depends on the text alone, and a date it yields exists.
#[verifier::external_body]
pub(crate) fn chrono_parse_ymd(s: &str) -> (r: Option<(i32, u32, u32)>)
    ensures
        r == chrono_parsed_ymd(s@),
        r matches Some((y, m, d)) ==> is_calendar_date(y as int, m as int, d as int),
{
    match chrono::NaiveDate::parse_from_str(s, "%Y-%m-%d") {
        Ok(d) => Some(
            (chrono::Datelike::year(&d), chrono::Datelike::month(&d), chrono::Datelike::day(&d)),
        ),
        Err(_) => None,
    }
}

/// The ten decimal digits, by value.
pub open spec fn digits() -> Seq<char> {
    seq!['0', '1', '2', '3', '4', '5', '6', '7', '8', '9']
}

/// The decimal text of `n`, zero-padded to `width` digits (the lowest `width` digits).
pub open spec fn padded(n: int, width: nat) -> Seq<char>
    decreases width,
{
    if width == 0 {
        Seq::empty()
    } else {
        padded(n / 10, (width - 1) as nat).push(digits()[n % 10])
    }
}

/// The stored text of a date: `YYYY-MM-DD`.
pub open spec fn iso_text(d: Date) -> Seq<char> {
    padded(d.year as int, 4) + seq!['-'] + padded(d.month as int, 2) + seq!['-'] + padded(
        d.day as int,
        2,
    )
}

/// `a` is the same day as `b` or an earlier one.
pub open spec fn date_le(a: Date, b: Date) -> bool {
    a.year < b.year || (a.year == b.year && (a.month < b.month || (a.month == b.month && a.day
        <= b.day)))
}

/// `a` is a day before `b`.
pub open spec fn date_lt(a: Date, b: Date) -> bool {
    date_le(a, b) && a != b
}

/// The date that a parsed triple stands for, when it is a date of four-digit year.
pub open spec fn date_of_parts(p: Option<(i32, u32, u32)>) -> Option<Date> {
    match p {
        Some((y, m, d)) => if 0 <= y <= 9999 && is_calendar_date(y as int, m as int, d as int) {
            Some(Date { year: y, month: m, day: d })
        } else {
            None
        },
        None => None,
    }
}

fn digit_char(n: u32) -> (c: char)
    requires
        n < 10,
    ensures
        c == digits()[n as int],
{
    match n {
        0 => '0',
        1 => '1',
        2 => '2',
        3 => '3',
        4 => '4',
        5 => '5',
        6 => '6',
        7 => '7',
        8 => '8',
        _ => '9',
    }
}

fn push_padded(out: &mut Vec<char>, n: u32, width: usize)
    requires
        width <= 4,
    ensures
        final(out)@ == old(out)@ + padded(n as int, width as nat),
    decreases width,
{
    if width > 0 {
        push_padded(out, n / 10, width - 1);
        out.push(digit_char(n % 10));
        assert(final(out)@ =~= old(out)@ + padded(n as int, width as nat));
    }
}

fn chars_to_string(cs: &Vec<char>) -> (r: String)
    ensures
        r@ == cs@,
{
    let mut r = String::new();
    let mut i: usize = 0;
    while i < cs.len()
        invariant
            i <= cs@.len(),
            r@ == cs@.subrange(0, i as int),
        decreases cs@.len() - i,
    {
        push_char(&mut r, cs[i]);
        assert(r@ =~= cs@.subrange(0, i + 1));
        i = i + 1;
    }
    assert(r@ =~= cs@);
    r
}

impl Date {
    /// The date of the given year, month and day, when it exists and its year
    /// has four digits.
    pub fn from_ymd_opt(year: i32, month: u32, day: u32) -> (r: Option<Date>)
        ensures
            r == date_of_parts(Some((year, month, day))),
    {
        if 0 <= year && year <= 9999 && chrono_date_exists(year, month, day) {
            Some(Date { year, month, day })
        } else {
            None
        }
    }

    /// A well-formed date: it exists and its year has four digits.
    pub open spec fn is_valid(self) -> bool {
        0 <= self.year <= 9999 && is_calendar_date(self.year as int, self.month as int, self.day as int)
    }

    /// Whether this date exists and its year has four digits.
    pub fn valid(&self) -> (r: bool)
        ensures
            r == self.is_valid(),
    {
        0 <= self.year && self.year <= 9999 && chrono_date_exists(self.year, self.month, self.day)
    }

    /// Whether this date is the same day as `other` or an earlier one.
    pub fn le(&self, other: &Date) -> (r: bool)
        ensures
            r == date_le(*self, *other),
    {
        self.year < other.year || (self.year == other.year && (self.month < other.month || (
        self.month == other.month && self.day <= other.day)))
    }

    /// The stored text of the date, `YYYY-MM-DD`.
    pub fn to_iso(&self) -> (r: String)
        requires
            self.is_valid(),
        ensures
            r@ == iso_text(*self),
    {
        let mut cs: Vec<char> = Vec::new();
        push_padded(&mut cs, self.year as u32, 4);
        cs.push('-');
        push_padded(&mut cs, self.month, 2);
        cs.push('-');
        push_padded(&mut cs, self.day, 2);
        assert(cs@ =~= iso_text(*self));
        chars_to_string(&cs)
    }

    /// The date that a stored `YYYY-MM-DD` text names, as chrono reads it.
    pub fn parse_iso(text: &str) -> (r: Option<Date>)
        ensures
            r == date_of_parts(chrono_parsed_ymd(text@)),
    {
        date_from_parts(chrono_parse_ymd(text))
    }
}

/// The date that a parsed triple stands for; `None` for a triple that names no
/// day or whose year does not have four digits.
pub fn date_from_parts(p: Option<(i32, u32, u32)>) -> (r: Option<Date>)
    ensures
        r == date_of_parts(p),
{
    match p {
        Some((y, m, d)) => Date::from_ymd_opt(y, m, d),
        None => None,
    }
}

} // verus!
