//! The clock text: local-time sampling and label formatting.
//!
//! The label shows, at startup, the weekday and date, and from then on
//! the time in a twelve-hour form with an AM/PM suffix, wrapped in the
//! markup the toolkit renders. Formatting is a pure function of a
//! [`ClockTime`]; only the sampling of the wall clock goes through an
//! outside call.

use vstd::prelude::*;
use vstd::string::StringExecFns;
use chrono::{Datelike, Timelike};

verus! {

/// One wall-clock sample, reduced to the fields the label shows.
pub struct ClockTime {
    /// Hour of the day, 0 to 23.
    pub hour: u8,
    /// Minute of the hour, 0 to 59.
    pub minute: u8,
    /// Days since Monday, 0 to 6.
    pub weekday: u8,
    /// Month of the year, 1 to 12.
    pub month: u8,
    /// Day of the month, 1 to 31.
    pub day: u8,
}

impl ClockTime {
    /// Every field is within its calendar range.
    pub open spec fn wf(self) -> bool {
        self.hour < 24 && self.minute < 60 && self.weekday < 7 && 1 <= self.month <= 12 && 1
            <= self.day <= 31
    }
}

/// The hour on a twelve-hour dial: 12 for 0 and 12, otherwise the hour
/// modulo 12.
pub open spec fn spec_hour12(hour: int) -> int {
    if hour % 12 == 0 {
        12
    } else {
        hour % 12
    }
}

/// Converts a 24-hour value to the twelve-hour dial.
pub fn hour12(hour: u8) -> (h: u8)
    requires
        hour < 24,
    ensures
        h == spec_hour12(hour as int),
{
    let m = hour % 12;
    if m == 0 {
        12
    } else {
        m
    }
}

/// The meridiem suffix: AM strictly before noon, PM from noon on.
pub open spec fn spec_am_pm(hour: int) -> Seq<char> {
    if hour < 12 {
        "AM"@
    } else {
        "PM"@
    }
}

/// Picks the meridiem suffix for an hour of the day.
pub fn am_pm(hour: u8) -> (suffix: &'static str)
    requires
        hour < 24,
    ensures
        suffix@ == spec_am_pm(hour as int),
{
    if hour < 12 {
        "AM"
    } else {
        "PM"
    }
}

/// The decimal digit character for a value below ten.
pub open spec fn digit_char(d: int) -> char {
    if d == 0 {
        '0'
    } else if d == 1 {
        '1'
    } else if d == 2 {
        '2'
    } else if d == 3 {
        '3'
    } else if d == 4 {
        '4'
    } else if d == 5 {
        '5'
    } else if d == 6 {
        '6'
    } else if d == 7 {
        '7'
    } else if d == 8 {
        '8'
    } else {
        '9'
    }
}

fn digit_str(d: u8) -> (s: &'static str)
    requires
        d < 10,
    ensures
        s@ =~= seq![digit_char(d as int)],
{
    proof {
        reveal_strlit("0");
        reveal_strlit("1");
        reveal_strlit("2");
        reveal_strlit("3");
        reveal_strlit("4");
        reveal_strlit("5");
        reveal_strlit("6");
        reveal_strlit("7");
        reveal_strlit("8");
        reveal_strlit("9");
    }
    match d {
        0 => "0",
        1 => "1",
        2 => "2",
        3 => "3",
        4 => "4",
        5 => "5",
        6 => "6",
        7 => "7",
        8 => "8",
        _ => "9",
    }
}

/// A value below one hundred, zero-padded to two decimal digits.
pub open spec fn spec_two_digits(n: int) -> Seq<char> {
    seq![digit_char(n / 10), digit_char(n % 10)]
}

/// Formats a value below one hundred as two zero-padded digits.
pub fn two_digits(n: u8) -> (s: String)
    requires
        n < 100,
    ensures
        s@ == spec_two_digits(n as int),
{
    let s = String::from_str(digit_str(n / 10)).concat(digit_str(n % 10));
    proof {
        assert(s@ =~= spec_two_digits(n as int));
    }
    s
}

/// The hour-and-minute text of the label: the twelve-hour value and the
/// minute, each two digits, joined by a colon.
pub open spec fn spec_hh_mm(t: ClockTime) -> Seq<char> {
    spec_two_digits(spec_hour12(t.hour as int)) + ":"@ + spec_two_digits(t.minute as int)
}

/// Formats the hour and minute of a sample, as the label's time text.
pub fn format_hh_mm(t: &ClockTime) -> (s: String)
    requires
        t.wf(),
    ensures
        s@ == spec_hh_mm(*t),
{
    let mut s = two_digits(hour12(t.hour));
    s.append(":");
    s.append(two_digits(t.minute).as_str());
    s
}

/// The full weekday name, Monday first.
pub open spec fn spec_weekday_name(w: int) -> Seq<char> {
    if w == 0 {
        "Monday"@
    } else if w == 1 {
        "Tuesday"@
    } else if w == 2 {
        "Wednesday"@
    } else if w == 3 {
        "Thursday"@
    } else if w == 4 {
        "Friday"@
    } else if w == 5 {
        "Saturday"@
    } else {
        "Sunday"@
    }
}

/// Names the weekday of a sample in full.
pub fn weekday_name(w: u8) -> (name: &'static str)
    requires
        w < 7,
    ensures
        name@ == spec_weekday_name(w as int),
{
    match w {
        0 => "Monday",
        1 => "Tuesday",
        2 => "Wednesday",
        3 => "Thursday",
        4 => "Friday",
        5 => "Saturday",
        _ => "Sunday",
    }
}

/// The three-letter month abbreviation, January first.
pub open spec fn spec_month_abbrev(m: int) -> Seq<char> {
    if m == 1 {
        "Jan"@
    } else if m == 2 {
        "Feb"@
    } else if m == 3 {
        "Mar"@
    } else if m == 4 {
        "Apr"@
    } else if m == 5 {
        "May"@
    } else if m == 6 {
        "Jun"@
    } else if m == 7 {
        "Jul"@
    } else if m == 8 {
        "Aug"@
    } else if m == 9 {
        "Sep"@
    } else if m == 10 {
        "Oct"@
    } else if m == 11 {
        "Nov"@
    } else {
        "Dec"@
    }
}

/// Abbreviates the month of a sample to three letters.
pub fn month_abbrev(m: u8) -> (name: &'static str)
    requires
        1 <= m <= 12,
    ensures
        name@ == spec_month_abbrev(m as int),
{
    match m {
        1 => "Jan",
        2 => "Feb",
        3 => "Mar",
        4 => "Apr",
        5 => "May",
        6 => "Jun",
        7 => "Jul",
        8 => "Aug",
        9 => "Sep",
        10 => "Oct",
        11 => "Nov",
        _ => "Dec",
    }
}

/// The markup of the running clock display: the twelve-hour value and the
/// minute in large white text on separate lines, the meridiem suffix
/// small, bold and red.
pub open spec fn spec_time_markup(t: ClockTime) -> Seq<char> {
    "<span foreground='#FFFFFF' size='large'>"@ + spec_two_digits(spec_hour12(t.hour as int))
        + "</span>\n<span foreground='#FFFFFF' size='large'>  "@ + spec_two_digits(
        t.minute as int,
    ) + "</span> <span foreground='#FF0110' weight='bold' size='small'>"@ + spec_am_pm(
        t.hour as int,
    ) + "</span>"@
}

/// Formats the running clock display for a sample.
pub fn format_time_markup(t: &ClockTime) -> (s: String)
    requires
        t.wf(),
    ensures
        s@ == spec_time_markup(*t),
{
    let mut s = String::from_str("<span foreground='#FFFFFF' size='large'>");
    s.append(two_digits(hour12(t.hour)).as_str());
    s.append("</span>\n<span foreground='#FFFFFF' size='large'>  ");
    s.append(two_digits(t.minute).as_str());
    s.append("</span> <span foreground='#FF0110' weight='bold' size='small'>");
    s.append(am_pm(t.hour));
    s.append("</span>");
    s
}

/// The markup of the startup display: the weekday in large white text on
/// a black span, then the month in pink and the day in red, both small
/// and bold.
pub open spec fn spec_date_markup(t: ClockTime) -> Seq<char> {
    "<span background='#000000' foreground='#FFFFFF' size='large'>"@ + spec_weekday_name(
        t.weekday as int,
    ) + "</span>\n<span foreground='#fabbc2' weight='bold' size='small'>"@ + spec_month_abbrev(
        t.month as int,
    ) + " "@ + "</span><span foreground='#FF0110' weight='bold' size='small'>"@ + spec_two_digits(
        t.day as int,
    ) + "</span>"@
}

/// Formats the startup weekday-and-date display for a sample.
pub fn format_date_markup(t: &ClockTime) -> (s: String)
    requires
        t.wf(),
    ensures
        s@ == spec_date_markup(*t),
{
    let mut s = String::from_str("<span background='#000000' foreground='#FFFFFF' size='large'>");
    s.append(weekday_name(t.weekday));
    s.append("</span>\n<span foreground='#fabbc2' weight='bold' size='small'>");
    s.append(month_abbrev(t.month));
    s.append(" ");
    s.append("</span><span foreground='#FF0110' weight='bold' size='small'>");
    s.append(two_digits(t.day).as_str());
    s.append("</span>");
    s
}

/// Relies on chrono's `Local::now` for the current local time, and on its
/// `Timelike` and `Datelike` accessors, whose documented ranges are:
/// `hour` 0 to 23, `minute` 0 to 59, `Weekday::num_days_from_monday` 0 to
/// 6, `month` 1 to 12, `day` 1 to 31. `Local::now` reads the system
/// clock through `Utc::now`, which does not return on a clock set before
/// the Unix epoch.
#[verifier::external_body]
fn sample_wall_clock() -> (t: ClockTime)
    ensures
        t.wf(),
{
    let now = chrono::Local::now();
    ClockTime {
        hour: now.hour() as u8,
        minute: now.minute() as u8,
        weekday: now.weekday().num_days_from_monday() as u8,
        month: now.month() as u8,
        day: now.day() as u8,
    }
}

/// Samples the wall clock and formats the running clock display for it.
pub fn current_time_markup() -> (s: String)
    ensures
        exists|t: ClockTime| t.wf() && s@ == #[trigger] spec_time_markup(t),
{
    let t = sample_wall_clock();
    let s = format_time_markup(&t);
    proof {
        assert(t.wf() && s@ == spec_time_markup(t));
    }
    s
}

/// Samples the wall clock and formats the startup display for it.
pub fn current_date_markup() -> (s: String)
    ensures
        exists|t: ClockTime| t.wf() && s@ == #[trigger] spec_date_markup(t),
{
    let t = sample_wall_clock();
    let s = format_date_markup(&t);
    proof {
        assert(t.wf() && s@ == spec_date_markup(t));
    }
    s
}

} // verus!
