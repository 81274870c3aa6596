//! Points in time, counted in milliseconds from the Unix epoch.

use vstd::prelude::*;
use vstd::string::StringExecFns;
use crate::model::snowflake::{append_decimal, decimal};

verus! {

/// The platform's own epoch, the first second of 2015, in milliseconds from
/// the Unix epoch.
pub const DISCORD_EPOCH: u64 = 1_420_070_400_000;

/// A point in time, to the millisecond.
#[derive(Clone, Copy, Debug, PartialEq, Eq, Hash, PartialOrd, Ord, Structural)]
pub struct Timestamp {
    millis: u64,
}

impl View for Timestamp {
    type V = u64;

    /// The milliseconds since the Unix epoch.
    closed spec fn view(&self) -> u64 {
        self.millis
    }
}

impl Timestamp {
    /// The milliseconds since the Unix epoch at which the identifier `id`
    /// was made: an identifier holds, above its lowest 22 bits, the
    /// milliseconds since the platform's epoch.
    pub open spec fn spec_from_discord_id(id: u64) -> u64 {
        (id / 0x40_0000 + DISCORD_EPOCH) as u64
    }

    /// The point in time `millis` milliseconds after the Unix epoch.
    pub fn from_unix_millis(millis: u64) -> (at: Self)
        ensures
            at@ == millis,
    {
        Timestamp { millis }
    }

    /// The moment at which the identifier `id` was made.
    pub fn from_discord_id(id: u64) -> (at: Self)
        ensures
            at@ == Self::spec_from_discord_id(id),
    {
        let since_epoch: u64 = id >> 22;
        assert(since_epoch == id / 0x40_0000 && since_epoch < 0x400_0000_0000) by (bit_vector)
            requires
                since_epoch == id >> 22,
        ;
        Timestamp { millis: since_epoch + DISCORD_EPOCH }
    }

    /// The milliseconds since the Unix epoch.
    pub fn unix_millis(&self) -> (millis: u64)
        ensures
            millis == self@,
    {
        self.millis
    }

    /// The whole seconds since the Unix epoch.
    pub fn unix_timestamp(&self) -> (seconds: i64)
        ensures
            seconds == self@ / 1000,
    {
        (self.millis / 1000) as i64
    }
}

/// The milliseconds of a day.
pub const MILLIS_PER_DAY: u64 = 86_400_000;

/// Whether `year` is a leap year of the Gregorian calendar.
pub open spec fn is_leap_year(year: int) -> bool {
    year % 4 == 0 && (year % 100 != 0 || year % 400 == 0)
}

/// The days of `year`.
pub open spec fn days_in_year(year: int) -> int {
    if is_leap_year(year) {
        366
    } else {
        365
    }
}

/// The days of month `month` (1 to 12) of `year`.
pub open spec fn days_in_month(year: int, month: int) -> int {
    if month == 2 {
        if is_leap_year(year) {
            29
        } else {
            28
        }
    } else if month == 4 || month == 6 || month == 9 || month == 11 {
        30
    } else {
        31
    }
}

/// The days from the first day of 1970 to the first day of `year`.
pub open spec fn days_before_year(year: int) -> int
    decreases year - 1970,
{
    if year <= 1970 {
        0
    } else {
        days_before_year(year - 1) + days_in_year(year - 1)
    }
}

/// The days from the first day of `year` to the first day of its month
/// `month`.
pub open spec fn days_before_month(year: int, month: int) -> int
    decreases month,
{
    if month <= 1 {
        0
    } else {
        days_before_month(year, month - 1) + days_in_month(year, month - 1)
    }
}

/// A day of the Gregorian calendar.
#[derive(Clone, Copy, Debug, PartialEq, Eq, Structural)]
pub struct Date {
    pub year: u64,
    pub month: u8,
    pub day: u8,
}

impl Date {
    /// The date names a day that exists, in 1970 or later.
    pub open spec fn wf(self) -> bool {
        &&& self.year >= 1970
        &&& 1 <= self.month <= 12
        &&& 1 <= self.day <= days_in_month(self.year as int, self.month as int)
    }

    /// The days from the first day of 1970 to this day.
    pub open spec fn days_since_epoch(self) -> int {
        days_before_year(self.year as int) + days_before_month(
            self.year as int,
            self.month as int,
        ) + self.day - 1
    }
}

/// The first day of a later year comes later.
pub proof fn lemma_years_grow(earlier: int, later: int)
    requires
        1970 <= earlier <= later,
    ensures
        days_before_year(earlier) + 365 * (later - earlier) <= days_before_year(later),
    decreases later - earlier,
{
    if earlier < later {
        lemma_years_grow(earlier, later - 1);
    }
}

/// The first day of a later month of one year comes later, and the year
/// ends after its last month.
pub proof fn lemma_months_grow(year: int, earlier: int, later: int)
    requires
        1 <= earlier <= later <= 13,
    ensures
        days_before_month(year, earlier) + 28 * (later - earlier) <= days_before_month(
            year,
            later,
        ),
        days_before_month(year, 13) == days_in_year(year),
    decreases later - earlier,
{
    reveal_with_fuel(days_before_month, 14);
    if earlier < later {
        lemma_months_grow(year, earlier, later - 1);
    }
}

/// No two dates name the same day: a date is determined by the number of
/// days that lie between the first day of 1970 and it.
pub proof fn lemma_date_unique(a: Date, b: Date)
    requires
        a.wf(),
        b.wf(),
        a.days_since_epoch() == b.days_since_epoch(),
    ensures
        a == b,
{
    lemma_months_grow(a.year as int, 1, a.month as int);
    lemma_months_grow(a.year as int, a.month as int, a.month as int + 1);
    lemma_months_grow(a.year as int, a.month as int + 1, 13);
    lemma_months_grow(b.year as int, 1, b.month as int);
    lemma_months_grow(b.year as int, b.month as int, b.month as int + 1);
    lemma_months_grow(b.year as int, b.month as int + 1, 13);
    if a.year < b.year {
        lemma_years_grow(a.year as int + 1, b.year as int);
    } else if b.year < a.year {
        lemma_years_grow(b.year as int + 1, a.year as int);
    } else if a.month < b.month {
        lemma_months_grow(a.year as int, a.month as int + 1, b.month as int);
    } else if b.month < a.month {
        lemma_months_grow(a.year as int, b.month as int + 1, a.month as int);
    }
}

/// The closed form of [`days_before_year`]: 365 days for each year, and one
/// more for each leap year passed.
proof fn lemma_days_before_year_closed(year: int)
    requires
        year >= 1970,
    ensures
        days_before_year(year) == 365 * (year - 1970) + (year - 1) / 4 - (year - 1) / 100 + (year
            - 1) / 400 - 477,
    decreases year - 1970,
{
    if year > 1970 {
        lemma_days_before_year_closed(year - 1);
    }
}

/// The first day of a year, counted from the first day of 1970.
fn first_day_of_year(year: u64) -> (days: u64)
    requires
        1970 <= year <= 1_000_000_000_000,
    ensures
        days == days_before_year(year as int),
{
    proof {
        lemma_days_before_year_closed(year as int);
    }
    365 * (year - 1970) + (year - 1) / 4 - (year - 1) / 100 + (year - 1) / 400 - 477
}

/// Whether `year` is a leap year.
fn leap_year(year: u64) -> (leap: bool)
    ensures
        leap == is_leap_year(year as int),
{
    year % 4 == 0 && (year % 100 != 0 || year % 400 == 0)
}

/// The days of a month.
fn month_length(year: u64, month: u8) -> (days: u8)
    requires
        1 <= month <= 12,
    ensures
        days == days_in_month(year as int, month as int),
        28 <= days <= 31,
{
    if month == 2 {
        if leap_year(year) {
            29
        } else {
            28
        }
    } else if month == 4 || month == 6 || month == 9 || month == 11 {
        30
    } else {
        31
    }
}

/// A year has as many days as its twelve months together.
proof fn lemma_months_fill_year(year: int)
    ensures
        days_before_month(year, 13) == days_in_year(year),
{
    reveal_with_fuel(days_before_month, 14);
}

impl Timestamp {
    /// The day on which the point in time falls: the date that lies
    /// `self@ / 86_400_000` days after the first day of 1970.
    pub fn date(&self) -> (date: Date)
        ensures
            date.wf(),
            date.days_since_epoch() == self@ / MILLIS_PER_DAY,
    {
        let days: u64 = self.millis / MILLIS_PER_DAY;
        let mut year: u64 = 1970 + days / 366;
        proof {
            lemma_days_before_year_closed(year as int);
        }
        let mut start: u64 = first_day_of_year(year);
        loop
            invariant
                1970 <= year <= 1970 + days,
                days <= u64::MAX / MILLIS_PER_DAY,
                start == days_before_year(year as int),
                start <= days,
            ensures
                days < days_before_year(year + 1),
            decreases days - start,
        {
            proof {
                lemma_days_before_year_closed(year as int);
                lemma_days_before_year_closed(year + 1);
            }
            let next = first_day_of_year(year + 1);
            if days < next {
                break;
            }
            year = year + 1;
            start = next;
        }
        let mut rest: u64 = days - start;
        let mut month: u8 = 1;
        proof {
            lemma_months_fill_year(year as int);
            reveal_with_fuel(days_before_month, 14);
        }
        while rest >= month_length(year, month) as u64
            invariant
                1 <= month <= 12,
                year >= 1970,
                rest + days_before_month(year as int, month as int) == days - start,
                days - start < days_in_year(year as int),
                days_before_month(year as int, 13) == days_in_year(year as int),
            decreases 12 - month,
        {
            proof {
                reveal_with_fuel(days_before_month, 14);
            }
            rest = rest - month_length(year, month) as u64;
            month = month + 1;
        }
        Date { year, month, day: (rest + 1) as u8 }
    }

    /// The text of the point in time: date and time of day at zero offset,
    /// to the millisecond, in the form `2016-04-30T11:18:25.796Z`. A year of
    /// fewer than four digits is filled with zeros.
    pub open spec fn spec_to_string(millis: u64, date: Date) -> Seq<char> {
        let of_day = millis % MILLIS_PER_DAY;
        padded(date.year as nat, 4) + "-"@ + padded(date.month as nat, 2) + "-"@ + padded(
            date.day as nat,
            2,
        ) + "T"@ + padded((of_day / 3_600_000) as nat, 2) + ":"@ + padded(
            (of_day / 60_000 % 60) as nat,
            2,
        ) + ":"@ + padded((of_day / 1000 % 60) as nat, 2) + "."@ + padded(
            (of_day % 1000) as nat,
            3,
        ) + "Z"@
    }

    /// The text of the point in time, as [`Timestamp::spec_to_string`] lays
    /// it out for the date on which it falls.
    pub fn to_string(&self) -> (text: String)
        ensures
            exists|date: Date|
                date.wf() && date.days_since_epoch() == self@ / MILLIS_PER_DAY && text@
                    == #[trigger] Self::spec_to_string(self@, date),
    {
        let date = self.date();
        let of_day = self.millis % MILLIS_PER_DAY;
        let mut text = String::new();
        append_padded(&mut text, date.year, 4);
        text.append("-");
        append_padded(&mut text, date.month as u64, 2);
        text.append("-");
        append_padded(&mut text, date.day as u64, 2);
        text.append("T");
        append_padded(&mut text, of_day / 3_600_000, 2);
        text.append(":");
        append_padded(&mut text, of_day / 60_000 % 60, 2);
        text.append(":");
        append_padded(&mut text, of_day / 1000 % 60, 2);
        text.append(".");
        append_padded(&mut text, of_day % 1000, 3);
        text.append("Z");
        assert(text@ =~= Self::spec_to_string(self@, date));
        text
    }
}

/// `count` zeros.
pub open spec fn zeros(count: nat) -> Seq<char> {
    Seq::new(count, |i: int| '0')
}

/// The decimal text of `n`, with zeros in front until it is `width` long.
pub open spec fn padded(n: nat, width: nat) -> Seq<char> {
    if decimal(n).len() >= width {
        decimal(n)
    } else {
        zeros((width - decimal(n).len()) as nat) + decimal(n)
    }
}

/// How many digits the decimal text of `n` has, if fewer than four.
fn short_length(n: u64) -> (len: usize)
    ensures
        n < 1000 ==> len == decimal(n as nat).len(),
        n >= 1000 ==> len == 4 && decimal(n as nat).len() >= 4,
{
    proof {
        reveal_with_fuel(decimal, 4);
        if n >= 1000 {
            lemma_decimal_length_grows(n as nat, 1000);
        }
    }
    if n < 10 {
        1
    } else if n < 100 {
        2
    } else if n < 1000 {
        3
    } else {
        4
    }
}

/// A larger number is not written shorter.
proof fn lemma_decimal_length_grows(n: nat, m: nat)
    requires
        m <= n,
    ensures
        decimal(m).len() <= decimal(n).len(),
    decreases n,
{
    if n >= 10 {
        if m >= 10 {
            lemma_decimal_length_grows(n / 10, m / 10);
        } else {
            lemma_decimal_length_grows(n / 10, 0);
        }
    }
}

/// Appends the decimal text of `n`, filled with zeros to `width`.
fn append_padded(text: &mut String, n: u64, width: usize)
    requires
        width <= 4,
    ensures
        final(text)@ == old(text)@ + padded(n as nat, width as nat),
{
    let len = short_length(n);
    let mut missing: usize = if len >= width {
        0
    } else {
        width - len
    };
    let ghost fill = missing;
    let ghost start = text@;
    while missing > 0
        invariant
            missing <= fill,
            text@ == start + zeros((fill - missing) as nat),
        decreases missing,
    {
        text.append("0");
        missing = missing - 1;
        proof {
            reveal_strlit("0");
            assert("0"@ =~= seq!['0']);
            assert(text@ =~= start + zeros((fill - missing) as nat));
        }
    }
    append_decimal(text, n);
    proof {
        if fill == 0 {
            assert(start + zeros(0) =~= start);
        }
        assert(text@ =~= start + padded(n as nat, width as nat));
    }
}

} // verus!
