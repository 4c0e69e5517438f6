//! Calendar dates and date-times as plain numbers, read from and written to
//! the text that the database stores (`YYYY-MM-DD` and `YYYY-MM-DD HH:MM:SS`).
//! Reading goes through chrono; writing and the Unix timestamp are computed here.
use crate::text::{all_digits, decimal, digits_value, is_digit, lemma_decimal_digits, write_decimal};
use chrono::{Datelike, Timelike};
use vstd::prelude::*;

verus! {

/// A calendar date (proleptic Gregorian), as chrono's `NaiveDate` holds one.
#[derive(Clone, Copy, Debug, PartialEq, Eq, Structural)]
pub struct DateParts {
    pub year: i32,
    pub month: u32,
    pub day: u32,
}

/// A date and a time of day without time zone, as chrono's `NaiveDateTime`.
#[derive(Clone, Copy, Debug, PartialEq, Eq, Structural)]
pub struct DateTimeParts {
    pub date: DateParts,
    pub hour: u32,
    pub minute: u32,
    pub second: u32,
}

/// The smallest year that chrono's `NaiveDate` holds.
pub const MIN_YEAR: i32 = -262143;

/// The largest year that chrono's `NaiveDate` holds.
pub const MAX_YEAR: i32 = 262142;

pub open spec fn is_leap_year(y: int) -> bool {
    y % 4 == 0 && (y % 100 != 0 || y % 400 == 0)
}

pub open spec fn days_in_month(y: int, m: int) -> int {
    if m == 2 {
        if is_leap_year(y) { 29 } else { 28 }
    } else if m == 4 || m == 6 || m == 9 || m == 11 {
        30
    } else {
        31
    }
}

/// A day that exists in chrono's calendar: the year in chrono's range, a month
/// from 1 to 12 and a day of that month.
pub open spec fn valid_ymd(y: int, m: int, d: int) -> bool {
    &&& MIN_YEAR <= y <= MAX_YEAR
    &&& 1 <= m <= 12
    &&& 1 <= d <= days_in_month(y, m)
}

impl DateParts {
    pub open spec fn valid(self) -> bool {
        valid_ymd(self.year as int, self.month as int, self.day as int)
    }
}

impl DateTimeParts {
    pub open spec fn valid(self) -> bool {
        &&& self.date.valid()
        &&& self.hour < 24
        &&& self.minute < 60
        &&& self.second < 60
    }
}

/// What chrono's `NaiveDate::parse_from_str(text, "%Y-%m-%d")` gives, as parts.
pub uninterp spec fn chrono_parse_date(text: Seq<char>) -> Option<DateParts>;

/// What chrono's `NaiveDateTime::parse_from_str(text, "%Y-%m-%d %H:%M:%S")`
/// gives, as parts.
pub uninterp spec fn chrono_parse_date_time(text: Seq<char>) -> Option<DateTimeParts>;

/// chrono's `NaiveDate::from_ymd_opt`: the date when the year, month and day
/// name a day of chrono's calendar, and nothing otherwise (chrono documents it
/// as returning `None` on an out-of-range date or an invalid month or day).
#[verifier::external_body]
pub fn date_from_ymd(year: i32, month: u32, day: u32) -> (r: Option<DateParts>)
    ensures
        r == (if valid_ymd(year as int, month as int, day as int) {
            Some(DateParts { year, month, day })
        } else {
            None
        }),
{
    match chrono::NaiveDate::from_ymd_opt(year, month, day) {
        Some(d) => Some(DateParts { year: d.year(), month: d.month(), day: d.day() }),
        None => None,
    }
}

/// chrono's `NaiveDate::parse_from_str` with the format `%Y-%m-%d`. The result
/// is named, not stated. The contract adds that a parsed date is a day of
/// chrono's calendar, which every `NaiveDate` is, and that the text chrono's
/// `Display` writes for a date (`date_text`) reads back as that date: chrono
/// documents `%Y-%m-%d` as the format of both its `Display` and its parsing of
/// dates, with the sign that `%Y` needs outside years 0 to 9999. What chrono
/// gives for other texts is left unsaid.
#[verifier::external_body]
pub fn parse_date(text: &str) -> (r: Option<DateParts>)
    ensures
        r == chrono_parse_date(text@),
        r matches Some(p) ==> p.valid(),
        forall|d: DateParts| #[trigger] date_text(d) == text@ && d.valid() ==> r == Some(d),
{
    match chrono::NaiveDate::parse_from_str(text, "%Y-%m-%d") {
        Ok(d) => Some(DateParts { year: d.year(), month: d.month(), day: d.day() }),
        Err(_) => None,
    }
}

/// chrono's `NaiveDateTime::parse_from_str` with the format
/// `%Y-%m-%d %H:%M:%S`. The result is named, not stated; the contract adds that
/// a parsed value is a day of chrono's calendar with an hour below 24 and a
/// minute and second below 60 (chrono's `second()` is below 60 even for a leap
/// second).
#[verifier::external_body]
pub fn parse_date_time(text: &str) -> (r: Option<DateTimeParts>)
    ensures
        r == chrono_parse_date_time(text@),
        r matches Some(p) ==> p.valid(),
{
    match chrono::NaiveDateTime::parse_from_str(text, "%Y-%m-%d %H:%M:%S") {
        Ok(t) => Some(DateTimeParts {
            date: DateParts { year: t.year(), month: t.month(), day: t.day() },
            hour: t.hour(),
            minute: t.minute(),
            second: t.second(),
        }),
        Err(_) => None,
    }
}

/// `n` written with at least `width` digits, zeros in front.
pub open spec fn padded(n: nat, width: nat) -> Seq<char> {
    let digits = decimal(n);
    if digits.len() < width {
        Seq::new((width - digits.len()) as nat, |i: int| '0') + digits
    } else {
        digits
    }
}

/// The text of a year as chrono writes it: four digits for years 0 to 9999, and
/// otherwise a sign and at least four digits.
pub open spec fn year_text(y: int) -> Seq<char> {
    if 0 <= y <= 9999 {
        padded(y as nat, 4)
    } else if y < 0 {
        seq!['-'] + padded((-y) as nat, 4)
    } else {
        seq!['+'] + padded(y as nat, 4)
    }
}

/// The text of a date as chrono's `Display` for `NaiveDate` writes it:
/// `YYYY-MM-DD`.
pub open spec fn date_text(d: DateParts) -> Seq<char> {
    year_text(d.year as int) + seq!['-'] + padded(d.month as nat, 2) + seq!['-'] + padded(
        d.day as nat,
        2,
    )
}

/// Appends zeros so that a number of `digits` digits fills `width`.
fn write_zeros(out: &mut String, digits: u64, width: u64)
    ensures
        final(out)@ == old(out)@ + (if digits < width {
            Seq::new((width - digits) as nat, |i: int| '0')
        } else {
            Seq::<char>::empty()
        }),
    decreases width,
{
    if digits < width {
        write_zeros(out, digits, width - 1);
        crate::text::push_char(out, '0');
        let ghost a = Seq::new((width - 1 - digits) as nat, |i: int| '0');
        let ghost b = Seq::new((width - digits) as nat, |i: int| '0');
        assert(a.push('0') =~= b);
    }
    assert(final(out)@ =~= old(out)@ + (if digits < width {
        Seq::new((width - digits) as nat, |i: int| '0')
    } else {
        Seq::<char>::empty()
    }));
}

/// The number of decimal digits of `n`.
fn digit_count(n: u64) -> (c: u64)
    ensures
        c == decimal(n as nat).len(),
        c <= n as int + 1,
    decreases n,
{
    if n < 10 {
        1
    } else {
        let c = digit_count(n / 10);
        assert(decimal(n as nat).len() == decimal((n / 10) as nat).len() + 1);
        c + 1
    }
}

/// Appends `n` written with at least `width` digits.
fn write_padded(out: &mut String, n: u64, width: u64)
    ensures
        final(out)@ == old(out)@ + padded(n as nat, width as nat),
{
    let count = digit_count(n);
    write_zeros(out, count, width);
    write_decimal(n, out);
    assert(final(out)@ =~= old(out)@ + padded(n as nat, width as nat));
}

/// The text of a date as chrono writes it, `YYYY-MM-DD` (for years outside 0 to
/// 9999 with a sign in front of the year).
pub fn format_date(d: DateParts) -> (s: String)
    ensures
        s@ == date_text(d),
{
    let mut s = String::new();
    let y = d.year;
    if 0 <= y && y <= 9999 {
        write_padded(&mut s, y as u64, 4);
    } else if y < 0 {
        crate::text::push_char(&mut s, '-');
        let magnitude: u64 = (-(y as i64)) as u64;
        write_padded(&mut s, magnitude, 4);
    } else {
        crate::text::push_char(&mut s, '+');
        write_padded(&mut s, y as u64, 4);
    }
    assert(s@ =~= year_text(y as int));
    crate::text::push_char(&mut s, '-');
    write_padded(&mut s, d.month as u64, 2);
    crate::text::push_char(&mut s, '-');
    write_padded(&mut s, d.day as u64, 2);
    assert(s@ =~= date_text(d));
    s
}

/// The number of leap years from year 1 up to year `y` (for `y` below 1, minus
/// the number of leap years from `y + 1` to year 0), so that the leap years in
/// a range `a + 1 ..= b` number `leap_count(b) - leap_count(a)`.
pub open spec fn leap_count(y: int) -> int {
    y / 4 - y / 100 + y / 400
}

/// The days of the months of a year before month `m`, leap day not counted.
pub open spec fn days_before_month(m: int) -> int {
    if m <= 1 { 0 }
    else if m == 2 { 31 }
    else if m == 3 { 59 }
    else if m == 4 { 90 }
    else if m == 5 { 120 }
    else if m == 6 { 151 }
    else if m == 7 { 181 }
    else if m == 8 { 212 }
    else if m == 9 { 243 }
    else if m == 10 { 273 }
    else if m == 11 { 304 }
    else { 334 }
}

/// The number of days from 1970-01-01 to the given day (negative before it):
/// 365 days a year, one more for each leap year in between, the days of the
/// months before `m` (with February 29 from March on in a leap year), and the
/// days of the month before `d`.
pub open spec fn days_from_epoch(y: int, m: int, d: int) -> int {
    365 * (y - 1970) + (leap_count(y - 1) - leap_count(1969)) + days_before_month(m) + (if m
        > 2 && is_leap_year(y) {
        1int
    } else {
        0int
    }) + (d - 1)
}

/// The Unix timestamp of a date-time read as UTC: seconds since 1970-01-01
/// 00:00:00, as chrono's `and_utc().timestamp()` gives it.
pub open spec fn unix_seconds(t: DateTimeParts) -> int {
    days_from_epoch(t.date.year as int, t.date.month as int, t.date.day as int) * 86400
        + t.hour * 3600 + t.minute * 60 + t.second
}

proof fn lemma_shifted_leap_year(y: int)
    ensures
        ((y + 2400000000) % 4 == 0 && ((y + 2400000000) % 100 != 0 || (y + 2400000000) % 400
            == 0)) == is_leap_year(y),
{
    assert((y + 2400000000) % 4 == y % 4) by (nonlinear_arith);
    assert((y + 2400000000) % 100 == y % 100) by (nonlinear_arith);
    assert((y + 2400000000) % 400 == y % 400) by (nonlinear_arith);
}

/// chrono's `NaiveDateTime::and_utc().timestamp()`, for the date-time whose
/// parts are given (built with `NaiveDate::from_ymd_opt` and `and_hms_opt`,
/// which succeed on valid parts). chrono documents the result as the number of
/// non-leap seconds since 1970-01-01 00:00:00 UTC, which `unix_seconds`
/// states.
#[verifier::external_body]
fn chrono_timestamp(t: &DateTimeParts) -> (ts: i64)
    requires
        t.valid(),
    ensures
        ts == unix_seconds(*t),
{
    chrono::NaiveDate::from_ymd_opt(t.date.year, t.date.month, t.date.day)
        .unwrap()
        .and_hms_opt(t.hour, t.minute, t.second)
        .unwrap()
        .and_utc()
        .timestamp()
}

impl DateParts {
    /// Whether the parts name a day of chrono's calendar.
    pub fn is_valid(&self) -> (b: bool)
        ensures
            b == self.valid(),
    {
        let y = self.year;
        let m = self.month;
        let d = self.day;
        if y < MIN_YEAR || y > MAX_YEAR || m < 1 || m > 12 || d < 1 {
            return false;
        }
        let u: i64 = (y as i64) + 2400000000;
        proof {
            lemma_shifted_leap_year(y as int);
        }
        let leap: bool = u % 4 == 0 && (u % 100 != 0 || u % 400 == 0);
        let last: u32 = if m == 2 {
            if leap { 29 } else { 28 }
        } else if m == 4 || m == 6 || m == 9 || m == 11 {
            30
        } else {
            31
        };
        d <= last
    }
}

impl DateTimeParts {
    /// Whether the parts name a day of chrono's calendar and a time of day.
    pub fn is_valid(&self) -> (b: bool)
        ensures
            b == self.valid(),
    {
        self.date.is_valid() && self.hour < 24 && self.minute < 60 && self.second < 60
    }

    /// The Unix timestamp of this date-time read as UTC.
    pub fn unix_timestamp(&self) -> (ts: i64)
        requires
            self.valid(),
        ensures
            ts == unix_seconds(*self),
    {
        chrono_timestamp(self)
    }
}

/// An optional text, by its view.
pub open spec fn opt_text(o: Option<String>) -> Option<Seq<char>> {
    match o {
        Some(s) => Some(s@),
        None => None,
    }
}

/// A date-time column as read: an empty column is no date, a text is read with
/// chrono, and a text that chrono does not read makes the column unreadable
/// (the outer `None`).
pub open spec fn date_time_column(col: Option<Seq<char>>) -> Option<Option<DateTimeParts>> {
    match col {
        None => Some(None),
        Some(t) => match chrono_parse_date_time(t) {
            Some(p) => Some(Some(p)),
            None => None,
        },
    }
}

/// A date column as read, in the same way as `date_time_column`.
pub open spec fn date_column(col: Option<Seq<char>>) -> Option<Option<DateParts>> {
    match col {
        None => Some(None),
        Some(t) => match chrono_parse_date(t) {
            Some(p) => Some(Some(p)),
            None => None,
        },
    }
}

/// Reads a date-time column (`YYYY-MM-DD HH:MM:SS` or empty).
pub fn read_date_time_column(col: &Option<String>) -> (r: Option<Option<DateTimeParts>>)
    ensures
        r == date_time_column(opt_text(*col)),
{
    match col {
        None => Some(None),
        Some(t) => match parse_date_time(t.as_str()) {
            Some(p) => Some(Some(p)),
            None => None,
        },
    }
}

/// Reads a date column (`YYYY-MM-DD` or empty). A date written with
/// `format_date` reads back as itself.
pub fn read_date_column(col: &Option<String>) -> (r: Option<Option<DateParts>>)
    ensures
        r == date_column(opt_text(*col)),
        forall|d: DateParts|
            #[trigger] date_text(d) == opt_text(*col)->0 && col is Some && d.valid() ==> r == Some(
                Some(d),
            ),
{
    match col {
        None => Some(None),
        Some(t) => match parse_date(t.as_str()) {
            Some(p) => Some(Some(p)),
            None => None,
        },
    }
}

/// The Unix timestamp of an optional date-time, for showing it.
pub fn timestamp_of(t: Option<DateTimeParts>) -> (r: Option<i64>)
    requires
        t matches Some(p) ==> p.valid(),
    ensures
        match t {
            Some(p) => r matches Some(x) && x == unix_seconds(p),
            None => r is None,
        },
{
    match t {
        Some(p) => Some(p.unix_timestamp()),
        None => None,
    }
}

proof fn lemma_zeros_then_digits(k: nat, s: Seq<char>)
    requires
        all_digits(s),
    ensures
        all_digits(Seq::new(k, |i: int| '0') + s),
        digits_value(Seq::new(k, |i: int| '0') + s) == digits_value(s),
    decreases s.len(),
{
    let z = Seq::new(k, |i: int| '0');
    let u = z + s;
    assert forall|i: int| 0 <= i < u.len() implies is_digit(#[trigger] u[i]) by {
        if i >= k {
            assert(u[i] == s[i - k]);
        }
    }
    if s.len() == 0 {
        assert(u =~= z);
        lemma_zeros_value(k);
    } else {
        let p = s.drop_last();
        assert(all_digits(p)) by {
            assert forall|i: int| 0 <= i < p.len() implies is_digit(#[trigger] p[i]) by {
                assert(p[i] == s[i]);
            }
        }
        lemma_zeros_then_digits(k, p);
        assert(u.drop_last() =~= z + p);
        assert(u.last() == s.last());
    }
}

proof fn lemma_zeros_value(k: nat)
    ensures
        digits_value(Seq::new(k, |i: int| '0')) == 0,
    decreases k,
{
    if k > 0 {
        lemma_zeros_value((k - 1) as nat);
        assert(Seq::new(k, |i: int| '0').drop_last() =~= Seq::new((k - 1) as nat, |i: int| '0'));
    }
}

proof fn lemma_decimal_short(n: nat)
    ensures
        n < 10 ==> decimal(n).len() == 1,
        n < 100 ==> decimal(n).len() <= 2,
        n < 1000 ==> decimal(n).len() <= 3,
        n < 10000 ==> decimal(n).len() <= 4,
    decreases n,
{
    if n >= 10 {
        lemma_decimal_short(n / 10);
    }
}

/// A number written with at least `width` digits is all digits and denotes the
/// number; it is `width` characters long when the number has no more digits.
pub proof fn lemma_padded_digits(n: nat, width: nat)
    ensures
        all_digits(padded(n, width)),
        digits_value(padded(n, width)) == n,
        padded(n, width).len() >= width,
        (width == 2 && n < 100) || (width == 4 && n < 10000) ==> padded(n, width).len() == width,
{
    lemma_decimal_digits(n);
    lemma_decimal_short(n);
    let digits = decimal(n);
    if digits.len() < width {
        lemma_zeros_then_digits((width - digits.len()) as nat, digits);
    }
}

} // verus!
