//! Calendar dates and the directories that are named after them.
//!
//! Notes and downloads are filed under `base/YYYY/MM/DD`, where the date is
//! the local date at the moment the directory is first asked for.

use crate::text::{push_signed_decimal, push_two_digits, signed_decimal_text, two_digit_text};
use vstd::prelude::*;
use vstd::string::*;

verus! {

/// A day of the proleptic Gregorian calendar.
#[derive(Clone, Copy, Debug, PartialEq, Eq, Structural)]
pub struct CalendarDate {
    pub year: i32,
    pub month: u32,
    pub day: u32,
}

impl CalendarDate {
    /// The month and the day of the month lie in the ranges that a calendar
    /// has.
    pub open spec fn valid(self) -> bool {
        1 <= self.month <= 12 && 1 <= self.day <= 31
    }

    /// Tells whether the month and the day lie in a calendar's ranges.
    pub fn is_valid(&self) -> (r: bool)
        ensures
            r == self.valid(),
    {
        1 <= self.month && self.month <= 12 && 1 <= self.day && self.day <= 31
    }
}

/// The relative path `YYYY/MM/DD` of a date: the year as it is written,
/// month and day in at least two digits.
pub open spec fn date_path_text(date: CalendarDate) -> Seq<char> {
    signed_decimal_text(date.year as int) + seq!['/'] + two_digit_text(date.month as nat)
        + seq!['/'] + two_digit_text(date.day as nat)
}

/// `base` followed by the relative path `rest`, with one `/` between them
/// unless `base` is empty or already ends in one.
pub open spec fn join_text(base: Seq<char>, rest: Seq<char>) -> Seq<char> {
    if base.len() == 0 || base.last() == '/' {
        base + rest
    } else {
        base + seq!['/'] + rest
    }
}

/// The directory for `date` under `parent`.
pub open spec fn dated_dir_text(parent: Seq<char>, date: CalendarDate) -> Seq<char> {
    join_text(parent, date_path_text(date))
}

/// Appends the relative path `rest` to the directory `base`.
pub fn join_path(base: &str, rest: &str) -> (r: String)
    ensures
        r@ == join_text(base@, rest@),
{
    let len = base.unicode_len();
    let mut out = String::from_str(base);
    if len > 0 && base.get_char(len - 1) != '/' {
        out.push('/');
    }
    out.append(rest);
    assert(out@ =~= join_text(base@, rest@));
    out
}

/// The relative path `YYYY/MM/DD` of `date`.
pub fn date_path(date: &CalendarDate) -> (r: String)
    ensures
        r@ == date_path_text(*date),
{
    let mut out = String::new();
    push_signed_decimal(&mut out, date.year as i64);
    out.push('/');
    push_two_digits(&mut out, date.month as u64);
    out.push('/');
    push_two_digits(&mut out, date.day as u64);
    assert(out@ =~= date_path_text(*date));
    out
}

/// The directory for `date` under `parent_dir`.
pub fn dated_dir_on(parent_dir: &str, date: &CalendarDate) -> (r: String)
    ensures
        r@ == dated_dir_text(parent_dir@, *date),
{
    let rest = date_path(date);
    join_path(parent_dir, rest.as_str())
}

/// Reads the machine's clock through `chrono::Local::now` and takes the
/// year, month and day of the local date from `chrono::Datelike`. Nothing
/// is claimed of which day comes back, only that `month` is in 1..=12 and
/// `day` in 1..=31, as `Datelike` documents.
#[verifier::external_body]
pub(crate) fn local_today() -> (date: CalendarDate)
    ensures
        date.valid(),
{
    let now = chrono::Local::now();
    CalendarDate {
        year: chrono::Datelike::year(&now),
        month: chrono::Datelike::month(&now),
        day: chrono::Datelike::day(&now),
    }
}

/// A dated directory together with the date it was named after.
#[derive(Clone, Debug, PartialEq, Eq)]
pub struct DatedDir {
    pub date: CalendarDate,
    pub path: String,
}

/// The directory under `parent_dir` for the local date at the time of the
/// call. The directory is named, not created.
pub fn get_dated_dir(parent_dir: &str) -> (r: DatedDir)
    ensures
        r.date.valid(),
        r.path@ == dated_dir_text(parent_dir@, r.date),
{
    let date = local_today();
    let path = dated_dir_on(parent_dir, &date);
    DatedDir { date, path }
}

} // verus!
