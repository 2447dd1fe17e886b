use vstd::prelude::*;

use chrono::{Datelike, Timelike};

verus! {

/// Smallest year that chrono's calendar dates accept.
pub const MIN_YEAR: i32 = -262143;

/// Largest year that chrono's calendar dates accept.
pub const MAX_YEAR: i32 = 262142;

/// A local wall-clock time, to the second.
#[derive(Clone, Copy, Debug, PartialEq, Eq, Structural)]
pub struct LocalTime {
    pub year: i32,
    pub month: u32,
    pub day: u32,
    pub hour: u32,
    pub minute: u32,
    pub second: u32,
}

/// Leap years of the proleptic Gregorian calendar.
pub open spec fn is_leap_year(y: int) -> bool {
    y % 4 == 0 && (y % 100 != 0 || y % 400 == 0)
}

pub open spec fn days_in_month(y: int, m: int) -> int {
    if m == 2 {
        if is_leap_year(y) { 29 } else { 28 }
    } else if m == 4 || m == 6 || m == 9 || m == 11 {
        30
    } else {
        31
    }
}

impl LocalTime {
    /// A real calendar date within chrono's range, and a time of day.
    pub open spec fn valid(self) -> bool {
        &&& MIN_YEAR <= self.year <= MAX_YEAR
        &&& 1 <= self.month <= 12
        &&& 1 <= self.day <= days_in_month(self.year as int, self.month as int)
        &&& self.hour < 24
        &&& self.minute < 60
        &&& self.second < 60
    }

    /// Whether `valid` holds.
    pub fn is_valid(&self) -> (r: bool)
        ensures
            r == self.valid(),
    {
        let leap = self.year % 4 == 0 && (self.year % 100 != 0 || self.year % 400 == 0);
        let days: u32 = if self.month == 2 {
            if leap { 29 } else { 28 }
        } else if self.month == 4 || self.month == 6 || self.month == 9 || self.month == 11 {
            30
        } else {
            31
        };
        MIN_YEAR <= self.year && self.year <= MAX_YEAR && 1 <= self.month && self.month <= 12
            && 1 <= self.day && self.day <= days && self.hour < 24 && self.minute < 60
            && self.second < 60
    }
}

/// The character of a decimal digit.
pub open spec fn digit(d: int) -> char {
    if d == 0 { '0' }
    else if d == 1 { '1' }
    else if d == 2 { '2' }
    else if d == 3 { '3' }
    else if d == 4 { '4' }
    else if d == 5 { '5' }
    else if d == 6 { '6' }
    else if d == 7 { '7' }
    else if d == 8 { '8' }
    else { '9' }
}

/// Two decimal digits, zero-padded.
pub open spec fn two_digits(n: int) -> Seq<char> {
    seq![digit(n / 10), digit(n % 10)]
}

/// Four decimal digits, zero-padded.
pub open spec fn four_digits(n: int) -> Seq<char> {
    two_digits(n / 100) + two_digits(n % 100)
}

/// Decimal digits of a natural number, without leading zeros.
pub open spec fn decimal(n: nat) -> Seq<char>
    decreases n,
{
    if n < 10 {
        seq![digit(n as int)]
    } else {
        decimal(n / 10).push(digit((n % 10) as int))
    }
}

/// A year as `%Y` writes it: four digits within 0..=9999, otherwise a sign
/// followed by at least four digits.
pub open spec fn year_text(y: int) -> Seq<char> {
    if 0 <= y <= 9999 {
        four_digits(y)
    } else {
        let sign = if y < 0 { '-' } else { '+' };
        let a = if y < 0 { -y } else { y };
        seq![sign] + if a <= 9999 { four_digits(a) } else { decimal(a as nat) }
    }
}

/// The part after the year: `-MM-DD_HH:MM:SS`.
pub open spec fn clock_text(t: LocalTime) -> Seq<char> {
    seq!['-'] + two_digits(t.month as int) + seq!['-'] + two_digits(t.day as int) + seq!['_']
        + two_digits(t.hour as int) + seq![':'] + two_digits(t.minute as int) + seq![':']
        + two_digits(t.second as int)
}

/// A time as `YYYY-MM-DD_HH:MM:SS`.
pub open spec fn timestamp_text(t: LocalTime) -> Seq<char> {
    year_text(t.year as int) + clock_text(t)
}

/// Relies on `SystemTime::now` with `duration_since(UNIX_EPOCH)`, then on
/// chrono's `DateTime::from_timestamp`, `with_timezone(&Local)` and its
/// `Datelike` / `Timelike` accessors. A clock before 1970 or past chrono's
/// range gives `None` (no panic); otherwise the local date is a real calendar
/// date (a year in the range chrono can represent, one year past the range of
/// its dates), and the second is reported from 0 to 59.
#[verifier::external_body]
pub(crate) fn local_now() -> (r: Option<LocalTime>)
    ensures
        r matches Some(t) ==> {
            &&& MIN_YEAR - 1 <= t.year <= MAX_YEAR + 1
            &&& 1 <= t.month <= 12
            &&& 1 <= t.day <= days_in_month(t.year as int, t.month as int)
            &&& t.hour < 24
            &&& t.minute < 60
            &&& t.second < 60
        },
{
    let since = std::time::SystemTime::now().duration_since(std::time::UNIX_EPOCH).ok()?;
    let utc = chrono::DateTime::from_timestamp(since.as_secs() as i64, since.subsec_nanos())?;
    let now = utc.with_timezone(&chrono::Local);
    Some(LocalTime {
        year: now.year(),
        month: now.month(),
        day: now.day(),
        hour: now.hour(),
        minute: now.minute(),
        second: now.second(),
    })
}

/// Relies on chrono's `NaiveDate::from_ymd_opt`, `NaiveDate::and_hms_opt` and
/// the `%Y-%m-%d_%H:%M:%S` format: both constructors accept a valid time, and
/// the format writes the year as `%Y` does and the other fields as two
/// zero-padded digits.
#[verifier::external_body]
pub(crate) fn format_timestamp(t: &LocalTime) -> (r: String)
    requires
        t.valid(),
    ensures
        r@ == timestamp_text(*t),
{
    chrono::NaiveDate::from_ymd_opt(t.year, t.month, t.day)
        .unwrap()
        .and_hms_opt(t.hour, t.minute, t.second)
        .unwrap()
        .format("%Y-%m-%d_%H:%M:%S")
        .to_string()
}

proof fn lemma_digit_injective(a: int, b: int)
    requires
        0 <= a < 10,
        0 <= b < 10,
        digit(a) == digit(b),
    ensures
        a == b,
{
}

proof fn lemma_two_digits_injective(n: int, m: int)
    requires
        0 <= n < 100,
        0 <= m < 100,
        two_digits(n) == two_digits(m),
    ensures
        n == m,
{
    assert(two_digits(n)[0] == two_digits(m)[0]);
    assert(two_digits(n)[1] == two_digits(m)[1]);
    lemma_digit_injective(n / 10, m / 10);
    lemma_digit_injective(n % 10, m % 10);
}

proof fn lemma_four_digits_injective(n: int, m: int)
    requires
        0 <= n < 10000,
        0 <= m < 10000,
        four_digits(n) == four_digits(m),
    ensures
        n == m,
{
    assert(four_digits(n).subrange(0, 2) =~= two_digits(n / 100));
    assert(four_digits(m).subrange(0, 2) =~= two_digits(m / 100));
    assert(four_digits(n).subrange(2, 4) =~= two_digits(n % 100));
    assert(four_digits(m).subrange(2, 4) =~= two_digits(m % 100));
    lemma_two_digits_injective(n / 100, m / 100);
    lemma_two_digits_injective(n % 100, m % 100);
}

proof fn lemma_decimal_len(n: nat)
    ensures
        decimal(n).len() >= 1,
        n >= 10 ==> decimal(n).len() >= 2,
        n >= 100 ==> decimal(n).len() >= 3,
        n >= 1000 ==> decimal(n).len() >= 4,
        n >= 10000 ==> decimal(n).len() >= 5,
    decreases n,
{
    if n >= 10 {
        lemma_decimal_len(n / 10);
    }
}

proof fn lemma_decimal_injective(n: nat, m: nat)
    requires
        decimal(n) == decimal(m),
    ensures
        n == m,
    decreases n,
{
    lemma_decimal_len(n);
    lemma_decimal_len(m);
    if n < 10 {
        assert(decimal(n).len() == 1);
        assert(m < 10);
        assert(decimal(n) == seq![digit(n as int)]);
        assert(decimal(m) == seq![digit(m as int)]);
        assert(decimal(n)[0] == decimal(m)[0]);
        assert(seq![digit(n as int)][0] == digit(n as int));
        assert(seq![digit(m as int)][0] == digit(m as int));
        lemma_digit_injective(n as int, m as int);
    } else {
        let a = decimal(n);
        assert(a.last() == digit((n % 10) as int));
        assert(decimal(m).last() == digit((m % 10) as int));
        lemma_digit_injective((n % 10) as int, (m % 10) as int);
        assert(a.drop_last() =~= decimal(n / 10));
        assert(decimal(m).drop_last() =~= decimal(m / 10));
        lemma_decimal_injective(n / 10, m / 10);
    }
}

proof fn lemma_year_text_injective(y1: int, y2: int)
    requires
        year_text(y1) == year_text(y2),
    ensures
        y1 == y2,
{
    let s1 = year_text(y1);
    let s2 = year_text(y2);
    let in1 = 0 <= y1 <= 9999;
    let in2 = 0 <= y2 <= 9999;
    assert(s1[0] == s2[0]);
    if in1 && in2 {
        lemma_four_digits_injective(y1, y2);
    } else if in1 || in2 {
        assert(four_digits(if in1 { y1 } else { y2 })[0] != '-');
    } else {
        assert(s1[0] == (if y1 < 0 { '-' } else { '+' }));
        assert(s2[0] == (if y2 < 0 { '-' } else { '+' }));
        assert((y1 < 0) == (y2 < 0));
        let a1 = if y1 < 0 { -y1 } else { y1 };
        let a2 = if y2 < 0 { -y2 } else { y2 };
        let d1 = if a1 <= 9999 { four_digits(a1) } else { decimal(a1 as nat) };
        let d2 = if a2 <= 9999 { four_digits(a2) } else { decimal(a2 as nat) };
        assert(s1.drop_first() =~= d1);
        assert(s2.drop_first() =~= d2);
        lemma_decimal_len(a1 as nat);
        lemma_decimal_len(a2 as nat);
        if a1 <= 9999 && a2 <= 9999 {
            lemma_four_digits_injective(a1, a2);
        } else if a1 > 9999 && a2 > 9999 {
            lemma_decimal_injective(a1 as nat, a2 as nat);
        } else {
            assert(d1.len() != d2.len());
        }
    }
}

/// Different valid times are written as different timestamps.
pub proof fn lemma_timestamp_text_injective(t1: LocalTime, t2: LocalTime)
    requires
        t1.valid(),
        t2.valid(),
        timestamp_text(t1) == timestamp_text(t2),
    ensures
        t1 == t2,
{
    let y1 = year_text(t1.year as int);
    let y2 = year_text(t2.year as int);
    let c1 = clock_text(t1);
    let c2 = clock_text(t2);
    assert(c1.len() == 15);
    assert(c2.len() == 15);
    let s = timestamp_text(t1);
    assert(s.subrange(0, y1.len() as int) =~= y1);
    assert(timestamp_text(t2).subrange(0, y2.len() as int) =~= y2);
    assert(s.subrange(y1.len() as int, s.len() as int) =~= c1);
    assert(timestamp_text(t2).subrange(y2.len() as int, s.len() as int) =~= c2);
    lemma_year_text_injective(t1.year as int, t2.year as int);
    assert(c1.subrange(1, 3) =~= two_digits(t1.month as int));
    assert(c2.subrange(1, 3) =~= two_digits(t2.month as int));
    assert(c1.subrange(4, 6) =~= two_digits(t1.day as int));
    assert(c2.subrange(4, 6) =~= two_digits(t2.day as int));
    assert(c1.subrange(7, 9) =~= two_digits(t1.hour as int));
    assert(c2.subrange(7, 9) =~= two_digits(t2.hour as int));
    assert(c1.subrange(10, 12) =~= two_digits(t1.minute as int));
    assert(c2.subrange(10, 12) =~= two_digits(t2.minute as int));
    assert(c1.subrange(13, 15) =~= two_digits(t1.second as int));
    assert(c2.subrange(13, 15) =~= two_digits(t2.second as int));
    lemma_two_digits_injective(t1.month as int, t2.month as int);
    lemma_two_digits_injective(t1.day as int, t2.day as int);
    lemma_two_digits_injective(t1.hour as int, t2.hour as int);
    lemma_two_digits_injective(t1.minute as int, t2.minute as int);
    lemma_two_digits_injective(t1.second as int, t2.second as int);
}

/// A timestamp never starts with a path separator.
pub proof fn lemma_timestamp_text_relative(t: LocalTime)
    ensures
        timestamp_text(t).len() > 0,
        timestamp_text(t)[0] != '/',
{
    let y = year_text(t.year as int);
    assert(timestamp_text(t)[0] == y[0]);
}

} // verus!
