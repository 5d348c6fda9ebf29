//! Calendar time in UTC from the seconds since 1970-01-01 00:00:00.

use vstd::prelude::*;

verus! {

/// The seconds of one day.
pub const SECONDS_PER_DAY: u64 = 86400;

/// The year is a leap year of the Gregorian calendar.
pub open spec fn is_leap_year(year: int) -> bool {
    year % 4 == 0 && (year % 100 != 0 || year % 400 == 0)
}

/// The days of a year.
pub open spec fn days_in_year(year: int) -> int {
    if is_leap_year(year) {
        366
    } else {
        365
    }
}

/// The days of a month, 1 for January to 12 for December.
pub open spec fn days_in_month(year: int, month: int) -> int {
    if month == 2 {
        if is_leap_year(year) {
            29
        } else {
            28
        }
    } else if month == 4 || month == 6 || month == 9 || month == 11 {
        30
    } else {
        31
    }
}

/// The days from 1970-01-01 to the first day of a year.
pub open spec fn days_before_year(year: int) -> int
    decreases year - 1970,
{
    if year <= 1970 {
        0
    } else {
        days_before_year(year - 1) + days_in_year(year - 1)
    }
}

/// The days from the first day of a year to the first day of a month of it.
pub open spec fn days_before_month(year: int, month: int) -> int
    decreases month,
{
    if month <= 1 {
        0
    } else {
        days_before_month(year, month - 1) + days_in_month(year, month - 1)
    }
}

/// A moment in UTC, to the second.
#[derive(Clone, Copy, Debug, PartialEq, Eq, Structural)]
pub struct Timestamp {
    pub year: u64,
    pub month: u8,
    pub day: u8,
    pub hour: u8,
    pub minute: u8,
    pub second: u8,
}

impl Timestamp {
    /// The fields name a moment of the calendar, not before 1970.
    pub open spec fn is_valid(&self) -> bool {
        &&& self.year >= 1970
        &&& 1 <= self.month <= 12
        &&& 1 <= self.day <= days_in_month(self.year as int, self.month as int)
        &&& self.hour < 24
        &&& self.minute < 60
        &&& self.second < 60
    }

    /// The days from 1970-01-01 to the day of the timestamp.
    pub open spec fn unix_days(&self) -> int {
        days_before_year(self.year as int) + days_before_month(
            self.year as int,
            self.month as int,
        ) + self.day - 1
    }

    /// The seconds from 1970-01-01 00:00:00 to the timestamp.
    pub open spec fn unix_seconds(&self) -> int {
        self.unix_days() * 86400 + self.hour * 3600 + self.minute * 60 + self.second
    }

    /// The moment that lies a number of seconds after 1970-01-01 00:00:00.
    pub open spec fn at(secs: int) -> Timestamp {
        choose|t: Timestamp| t.is_valid() && t.unix_seconds() == secs
    }

    /// The calendar time of a number of seconds since 1970-01-01 00:00:00 UTC.
    pub fn from_unix_seconds(secs: u64) -> (t: Timestamp)
        ensures
            t.is_valid(),
            t.unix_seconds() == secs,
            t == Timestamp::at(secs as int),
    {
        let days = secs / SECONDS_PER_DAY;
        let time_of_day = secs % SECONDS_PER_DAY;
        let hour = time_of_day / 3600;
        let minute = (time_of_day % 3600) / 60;
        let second = time_of_day % 60;

        let mut year: u64 = 1970;
        let mut remaining_days = days;
        loop
            invariant
                1970 <= year,
                year - 1970 <= days - remaining_days,
                remaining_days <= days,
                days <= u64::MAX / 86400,
                days_before_year(year as int) + remaining_days == days,
            ensures
                remaining_days < days_in_year(year as int),
            decreases remaining_days,
        {
            let in_year: u64 = if leap_year(year) {
                366
            } else {
                365
            };
            if remaining_days < in_year {
                break;
            }
            remaining_days -= in_year;
            year += 1;
        }

        let mut month: u8 = 1;
        loop
            invariant
                1 <= month <= 12,
                1970 <= year,
                days_before_month(year as int, month as int) + remaining_days + days_before_year(
                    year as int,
                ) == days,
                days_before_month(year as int, month as int) + remaining_days < days_in_year(
                    year as int,
                ),
            ensures
                remaining_days < days_in_month(year as int, month as int),
            decreases 12 - month,
        {
            let in_month = month_length(year, month);
            if remaining_days < in_month {
                break;
            }
            proof {
                lemma_days_before_month_13(year as int);
                lemma_days_before_month_grows(year as int, month as int + 1, 13);
            }
            remaining_days -= in_month;
            month += 1;
        }
        let t = Timestamp {
            year,
            month,
            day: (remaining_days + 1) as u8,
            hour: hour as u8,
            minute: minute as u8,
            second: second as u8,
        };
        proof {
            assert(t.is_valid() && t.unix_seconds() == secs);
            law_unix_seconds_determine_timestamp(t, Timestamp::at(secs as int));
        }
        t
    }
}

/// Checks whether a year is a leap year.
pub fn leap_year(year: u64) -> (r: bool)
    ensures
        r == is_leap_year(year as int),
{
    year % 4 == 0 && (year % 100 != 0 || year % 400 == 0)
}

/// The days of a month of a year, 1 for January to 12 for December.
pub fn month_length(year: u64, month: u8) -> (r: u64)
    ensures
        r == days_in_month(year as int, month as int),
{
    if month == 2 {
        if leap_year(year) {
            29
        } else {
            28
        }
    } else if month == 4 || month == 6 || month == 9 || month == 11 {
        30
    } else {
        31
    }
}

/// The twelve months of a year hold all its days.
proof fn lemma_days_before_month_13(year: int)
    ensures
        days_before_month(year, 13) == days_in_year(year),
{
    reveal_with_fuel(days_before_month, 14);
}

/// Later months begin later.
proof fn lemma_days_before_month_grows(year: int, month: int, later: int)
    requires
        1 <= month <= later,
    ensures
        days_before_month(year, month) <= days_before_month(year, later),
    decreases later - month,
{
    if month < later {
        lemma_days_before_month_grows(year, month, later - 1);
    }
}

/// Later years begin later.
proof fn lemma_days_before_year_grows(year: int, later: int)
    requires
        1970 <= year <= later,
    ensures
        days_before_year(year) <= days_before_year(later),
        year < later ==> days_before_year(year) + days_in_year(year) <= days_before_year(later),
    decreases later - year,
{
    if year < later {
        lemma_days_before_year_grows(year, later - 1);
    }
}

/// A valid timestamp lies within its month, and its month within its year.
proof fn lemma_day_lies_in_year(t: Timestamp)
    requires
        t.is_valid(),
    ensures
        days_before_year(t.year as int) <= t.unix_days() < days_before_year(t.year as int)
            + days_in_year(t.year as int),
        0 <= days_before_month(t.year as int, t.month as int),
{
    lemma_days_before_month_grows(t.year as int, 1, t.month as int);
    lemma_days_before_month_grows(t.year as int, t.month as int + 1, 13);
    lemma_days_before_month_13(t.year as int);
}

/// No two moments of the calendar are equally many seconds after 1970-01-01 00:00:00:
/// the seconds determine the timestamp.
pub proof fn law_unix_seconds_determine_timestamp(a: Timestamp, b: Timestamp)
    requires
        a.is_valid(),
        b.is_valid(),
        a.unix_seconds() == b.unix_seconds(),
    ensures
        a == b,
{
    lemma_day_lies_in_year(a);
    lemma_day_lies_in_year(b);
    assert(a.unix_days() == b.unix_days());
    if a.year < b.year {
        lemma_days_before_year_grows(a.year as int, b.year as int);
    }
    if b.year < a.year {
        lemma_days_before_year_grows(b.year as int, a.year as int);
    }
    if a.month < b.month {
        lemma_days_before_month_grows(a.year as int, a.month as int + 1, b.month as int);
    }
    if b.month < a.month {
        lemma_days_before_month_grows(a.year as int, b.month as int + 1, a.month as int);
    }
}

/// The character of a decimal digit.
pub open spec fn digit_char(digit: int) -> char
    recommends
        0 <= digit < 10,
{
    (0x30 + digit) as char
}

/// A number written in decimal, without leading zeros.
pub open spec fn decimal(n: nat) -> Seq<char>
    decreases n,
{
    if n < 10 {
        seq![digit_char(n as int)]
    } else {
        decimal(n / 10).push(digit_char((n % 10) as int))
    }
}

/// A number written in decimal, with zeros in front up to a width.
pub open spec fn zero_padded(n: nat, width: nat) -> Seq<char> {
    let digits = decimal(n);
    if digits.len() >= width {
        digits
    } else {
        Seq::new((width - digits.len()) as nat, |i: int| '0') + digits
    }
}

/// The digits of a number that stand before its last one.
spec fn leading_digits(n: nat) -> Seq<char> {
    if n < 10 {
        seq![]
    } else {
        decimal(n / 10)
    }
}

impl Timestamp {
    /// The timestamp as `YYYY-MM-DD hh:mm:ss`.
    pub open spec fn text(&self) -> Seq<char> {
        zero_padded(self.year as nat, 4) + seq!['-'] + zero_padded(self.month as nat, 2)
            + seq!['-'] + zero_padded(self.day as nat, 2) + seq![' '] + zero_padded(
            self.hour as nat,
            2,
        ) + seq![':'] + zero_padded(self.minute as nat, 2) + seq![':'] + zero_padded(
            self.second as nat,
            2,
        )
    }

    /// Writes the timestamp as `YYYY-MM-DD hh:mm:ss`.
    pub fn format(&self) -> (r: String)
        ensures
            r@ == self.text(),
    {
        let mut out = String::new();
        push_padded(&mut out, self.year, 4);
        out.push('-');
        push_padded(&mut out, self.month as u64, 2);
        out.push('-');
        push_padded(&mut out, self.day as u64, 2);
        out.push(' ');
        push_padded(&mut out, self.hour as u64, 2);
        out.push(':');
        push_padded(&mut out, self.minute as u64, 2);
        out.push(':');
        push_padded(&mut out, self.second as u64, 2);
        out
    }
}

/// The time of a log entry, `YYYY-MM-DD hh:mm:ss` in UTC, for a number of seconds since
/// 1970-01-01 00:00:00.
pub fn chrono_lite_timestamp(secs: u64) -> (r: String)
    ensures
        r@ == Timestamp::at(secs as int).text(),
{
    Timestamp::from_unix_seconds(secs).format()
}

fn digit_of(digit: u64) -> (c: char)
    requires
        digit < 10,
    ensures
        c == digit_char(digit as int),
{
    ((0x30 + digit) as u8) as char
}

/// Appends a number in decimal, with zeros in front up to a width.
pub fn push_padded(out: &mut String, value: u64, width: usize)
    ensures
        final(out)@ == old(out)@ + zero_padded(value as nat, width as nat),
{
    let mut digits: Vec<char> = Vec::new();
    digits.push(digit_of(value % 10));
    let mut rest = value;
    while rest >= 10
        invariant
            digits@.len() >= 1,
            decimal(value as nat) == leading_digits(rest as nat) + digits@.reverse(),
        decreases rest,
    {
        rest = rest / 10;
        digits.push(digit_of(rest % 10));
    }
    let ghost before = out@;
    let mut padding: usize = digits.len();
    while padding < width
        invariant
            digits@.len() <= padding,
            padding == digits@.len() || padding <= width,
            out@ == before + Seq::new((padding - digits@.len()) as nat, |i: int| '0'),
        decreases width - padding,
    {
        out.push('0');
        padding += 1;
    }
    let ghost padded = out@;
    let mut left: usize = digits.len();
    while left > 0
        invariant
            left <= digits@.len(),
            out@ == padded + digits@.reverse().take(digits@.len() - left),
        decreases left,
    {
        left -= 1;
        out.push(digits[left]);
        assert(digits@.reverse().take(digits@.len() - left) =~= digits@.reverse().take(
            digits@.len() - left - 1,
        ).push(digits@[left as int]));
    }
}

} // verus!
