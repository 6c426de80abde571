use crate::text::{padded, text_view};
use vstd::prelude::*;

verus! {

/// The pattern of the name of a day's journal file: year, month and day,
/// then the extension.
pub const DAY_FILE: &'static str = "%Y-%m-%d.yaml";

/// The pattern of the day in the header: short weekday, short month, day.
pub const HEADER_DAY: &'static str = "%a, %b %e";

/// Whether `year` is a leap year of the Gregorian calendar, which is here
/// taken to hold of all years, before its introduction too.
pub open spec fn leap_year(year: int) -> bool {
    year % 4 == 0 && (year % 100 != 0 || year % 400 == 0)
}

/// The number of days of a month.
pub open spec fn days_in_month(year: int, month: int) -> int {
    if month == 2 {
        if leap_year(year) {
            29
        } else {
            28
        }
    } else if month == 4 || month == 6 || month == 9 || month == 11 {
        30
    } else {
        31
    }
}

/// Whether the calendar has such a day.
pub open spec fn is_date(year: int, month: int, day: int) -> bool {
    1 <= month <= 12 && 1 <= day <= days_in_month(year, month)
}

/// The name of the journal file of a day: the year in four digits, the
/// month and the day in two each, with dashes between them, and the
/// extension.
pub open spec fn day_file(year: int, month: int, day: int) -> Seq<char> {
    padded(year as nat, 4) + "-"@ + padded(month as nat, 2) + "-"@ + padded(day as nat, 2)
        + ".yaml"@
}

/// The name of the journal file of a day of the years 0 to 9999, and `None`
/// where the calendar has no such day.
pub open spec fn day_file_if_any(year: int, month: int, day: int) -> Option<Seq<char>> {
    if is_date(year, month, day) {
        Some(day_file(year, month, day))
    } else {
        None
    }
}

/// The text that chrono writes for the calendar date `year`-`month`-`day` in
/// `pattern`, or `None` where chrono knows no such date.
pub uninterp spec fn date_text(year: int, month: int, day: int, pattern: Seq<char>) -> Option<
    Seq<char>,
>;

/// `chrono::NaiveDate::from_ymd_opt`, then `NaiveDate::format` and its
/// `to_string`. The contract claims that date and pattern alone decide the
/// outcome, which it names [`date_text`]; that chrono has a date only for a
/// day of the calendar, and has one for each such day of the years 0 to
/// 9999; and that in those years `%Y`, `%m` and `%d` are the year in four
/// digits and the month and the day in two. Of the names of weekdays and
/// months it says nothing. chrono panics on a pattern it cannot read, so
/// only the two patterns of this library are let in.
#[verifier::external_body]
pub(crate) fn format_date(year: i32, month: u32, day: u32, pattern: &str) -> (text: Option<String>)
    requires
        pattern@ == DAY_FILE@ || pattern@ == HEADER_DAY@,
    ensures
        match text {
            Some(text) => date_text(year as int, month as int, day as int, pattern@) == Some(
                text@,
            ),
            None => date_text(year as int, month as int, day as int, pattern@) is None,
        },
        text is Some ==> is_date(year as int, month as int, day as int),
        is_date(year as int, month as int, day as int) && 0 <= year <= 9999 ==> text is Some,
        pattern@ == DAY_FILE@ && 0 <= year <= 9999 && text is Some ==> text.unwrap()@ == day_file(
            year as int,
            month as int,
            day as int,
        ),
{
    chrono::NaiveDate::from_ymd_opt(year, month, day).map(|date| date.format(pattern).to_string())
}

/// The name of the journal file of the given day, such as
/// `2024-01-05.yaml`; `None` where there is no such day.
pub fn day_file_name(year: i32, month: u32, day: u32) -> (name: Option<String>)
    ensures
        match name {
            Some(name) => date_text(year as int, month as int, day as int, DAY_FILE@) == Some(
                name@,
            ),
            None => date_text(year as int, month as int, day as int, DAY_FILE@) is None,
        },
        name is Some ==> is_date(year as int, month as int, day as int),
        0 <= year <= 9999 ==> text_view(name) == day_file_if_any(
            year as int,
            month as int,
            day as int,
        ),
{
    format_date(year, month, day, DAY_FILE)
}

/// The given day as the header shows it, such as `Fri, Jan  5`; `None` where
/// there is no such day.
pub fn header_day(year: i32, month: u32, day: u32) -> (text: Option<String>)
    ensures
        match text {
            Some(text) => date_text(year as int, month as int, day as int, HEADER_DAY@) == Some(
                text@,
            ),
            None => date_text(year as int, month as int, day as int, HEADER_DAY@) is None,
        },
        text is Some ==> is_date(year as int, month as int, day as int),
        0 <= year <= 9999 ==> (text is Some <==> is_date(year as int, month as int, day as int)),
{
    format_date(year, month, day, HEADER_DAY)
}

} // verus!
