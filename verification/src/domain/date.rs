//! Calendar dates of the proleptic Gregorian calendar, held as plain
//! year / month / day values, with conversion from a day number
//! (days since 0001-01-01, that day being day 1) and ISO rendering.
//! Timestamps (seconds since the Unix epoch) are rendered through the
//! same calendar.

use vstd::prelude::*;

use crate::text::{dec_pad, push_char, push_u64_pad};

verus! {

pub open spec fn is_leap_year(y: int) -> bool {
    (y % 4 == 0 && y % 100 != 0) || y % 400 == 0
}

pub open spec fn days_in_month(y: int, m: int) -> int {
    if m == 2 {
        if is_leap_year(y) {
            29
        } else {
            28
        }
    } else if m == 4 || m == 6 || m == 9 || m == 11 {
        30
    } else {
        31
    }
}

pub open spec fn days_in_year(y: int) -> int {
    if is_leap_year(y) {
        366
    } else {
        365
    }
}

/// Days of year `y` that lie before month `m`.
pub open spec fn days_before_month(y: int, m: int) -> int
    decreases m,
{
    if m <= 1 {
        0
    } else {
        days_before_month(y, m - 1) + days_in_month(y, m - 1)
    }
}

/// Days that lie before year `y` (counting from year 1).
pub open spec fn days_before_year(y: int) -> int
    decreases y,
{
    if y <= 1 {
        0
    } else {
        days_before_year(y - 1) + days_in_year(y - 1)
    }
}

/// A calendar date. Values are only ever constructed well-formed.
#[derive(Clone, Copy, PartialEq, Eq, Structural, Debug)]
#[verifier::ext_equal]
pub struct Date {
    year: i32,
    month: i32,
    day: i32,
}

impl Date {
    pub closed spec fn year(self) -> int {
        self.year as int
    }

    pub closed spec fn month(self) -> int {
        self.month as int
    }

    pub closed spec fn day(self) -> int {
        self.day as int
    }

    /// A real date of the supported range: years 1 through 9999.
    pub open spec fn wf(self) -> bool {
        &&& 1 <= self.year() <= 9999
        &&& 1 <= self.month() <= 12
        &&& 1 <= self.day() <= days_in_month(self.year(), self.month())
    }

    /// The day number of this date: 0001-01-01 is day 1.
    pub open spec fn num_days_from_ce(self) -> int {
        days_before_year(self.year()) + days_before_month(self.year(), self.month()) + self.day()
    }
}

fn days_in_month_x(y: i32, m: i32) -> (d: i32)
    requires
        1 <= y <= 9999,
        1 <= m <= 12,
    ensures
        d == days_in_month(y as int, m as int),
{
    if m == 2 {
        if (y % 4 == 0 && y % 100 != 0) || y % 400 == 0 {
            29
        } else {
            28
        }
    } else if m == 4 || m == 6 || m == 9 || m == 11 {
        30
    } else {
        31
    }
}

fn days_in_year_x(y: i32) -> (d: i32)
    requires
        1 <= y <= 9999,
    ensures
        d == days_in_year(y as int),
{
    if (y % 4 == 0 && y % 100 != 0) || y % 400 == 0 {
        366
    } else {
        365
    }
}

proof fn lemma_days_before_year_mono(a: int, b: int)
    requires
        a <= b,
    ensures
        days_before_year(a) <= days_before_year(b),
    decreases b - a,
{
    if a < b {
        lemma_days_before_year_mono(a, b - 1);
    }
}

proof fn lemma_days_before_month_mono(y: int, a: int, b: int)
    requires
        a <= b,
    ensures
        days_before_month(y, a) <= days_before_month(y, b),
    decreases b - a,
{
    if a < b {
        lemma_days_before_month_mono(y, a, b - 1);
    }
}

/// The months of a year account for all of its days.
proof fn lemma_year_is_its_months(y: int)
    ensures
        days_before_month(y, 13) == days_in_year(y),
{
    reveal_with_fuel(days_before_month, 14);
}

/// A well-formed date lies within its own year's days.
proof fn lemma_within_year(d: Date)
    requires
        d.wf(),
    ensures
        1 <= days_before_month(d.year(), d.month()) + d.day() <= days_in_year(d.year()),
{
    lemma_days_before_month_mono(d.year(), 1, d.month());
    assert(days_before_month(d.year(), d.month() + 1) == days_before_month(d.year(), d.month())
        + days_in_month(d.year(), d.month()));
    lemma_days_before_month_mono(d.year(), d.month() + 1, 13);
    lemma_year_is_its_months(d.year());
}

/// No two distinct well-formed dates share a day number.
pub proof fn lemma_days_from_ce_injective(a: Date, b: Date)
    requires
        a.wf(),
        b.wf(),
        a.num_days_from_ce() == b.num_days_from_ce(),
    ensures
        a == b,
{
    lemma_within_year(a);
    lemma_within_year(b);
    if a.year() < b.year() {
        assert(days_before_year(a.year() + 1) == days_before_year(a.year()) + days_in_year(
            a.year(),
        ));
        lemma_days_before_year_mono(a.year() + 1, b.year());
        assert(false);
    }
    if b.year() < a.year() {
        assert(days_before_year(b.year() + 1) == days_before_year(b.year()) + days_in_year(
            b.year(),
        ));
        lemma_days_before_year_mono(b.year() + 1, a.year());
        assert(false);
    }
    if a.month() < b.month() {
        assert(days_before_month(a.year(), a.month() + 1) == days_before_month(
            a.year(),
            a.month(),
        ) + days_in_month(a.year(), a.month()));
        lemma_days_before_month_mono(a.year(), a.month() + 1, b.month());
        assert(false);
    }
    if b.month() < a.month() {
        assert(days_before_month(a.year(), b.month() + 1) == days_before_month(
            a.year(),
            b.month(),
        ) + days_in_month(a.year(), b.month()));
        lemma_days_before_month_mono(a.year(), b.month() + 1, a.month());
        assert(false);
    }
    assert(a =~= b);
}

/// The well-formed date with the given day number, where one exists.
pub open spec fn ce_date(n: int) -> Date {
    choose|d: Date| d.wf() && d.num_days_from_ce() == n
}

/// The date whose day number (0001-01-01 being day 1) is `n`; `None`
/// beyond year 9999.
fn date_of_ce_day(n: u64) -> (r: Option<Date>)
    ensures
        r is Some <==> 1 <= n <= days_before_year(10000),
        r is Some ==> r->0.wf() && r->0.num_days_from_ce() == n,
{
    if n < 1 {
        return None;
    }
    let mut year: i32 = 1;
    let mut rem: u64 = n;
    while year < 10000 && rem > days_in_year_x(year) as u64
        invariant
            1 <= year <= 10000,
            rem >= 1,
            days_before_year(year as int) + rem == n,
        decreases 10000 - year,
    {
        rem = rem - days_in_year_x(year) as u64;
        year = year + 1;
    }
    if year == 10000 {
        return None;
    }
    let ghost yrem = rem as int;
    assert(yrem <= days_in_year(year as int));
    let mut month: i32 = 1;
    while month < 12 && rem > days_in_month_x(year, month) as u64
        invariant
            1 <= year <= 9999,
            1 <= month <= 12,
            rem >= 1,
            days_before_month(year as int, month as int) + rem == yrem,
            yrem <= days_in_year(year as int),
        decreases 12 - month,
    {
        rem = rem - days_in_month_x(year, month) as u64;
        month = month + 1;
    }
    proof {
        if rem > days_in_month(year as int, month as int) {
            assert(month == 12);
            assert(days_before_month(year as int, 13) == days_before_month(year as int, 12)
                + days_in_month(year as int, 12));
            lemma_year_is_its_months(year as int);
            assert(false);
        }
    }
    let d = Date { year, month, day: rem as i32 };
    proof {
        assert(days_before_year(year as int + 1) == days_before_year(year as int) + days_in_year(
            year as int,
        ));
        lemma_days_before_year_mono(year as int + 1, 10000);
    }
    Some(d)
}

impl Date {
    /// The date with the given calendar fields, where they name a real
    /// date of years 1 through 9999.
    pub fn from_ymd(year: i32, month: i32, day: i32) -> (r: Option<Date>)
        ensures
            r is Some <==> (1 <= year <= 9999 && 1 <= month <= 12 && 1 <= day <= days_in_month(
                year as int,
                month as int,
            )),
            r is Some ==> r->0.wf() && r->0.year() == year && r->0.month() == month && r->0.day()
                == day,
    {
        if year < 1 || year > 9999 || month < 1 || month > 12 || day < 1 {
            return None;
        }
        if day > days_in_month_x(year, month) {
            return None;
        }
        Some(Date { year, month, day })
    }

    /// The date numbered `days` when counting 0001-01-01 as day 1;
    /// `None` outside years 1 through 9999.
    pub fn from_num_days_from_ce(days: i32) -> (r: Option<Date>)
        ensures
            r is Some <==> 1 <= days <= days_before_year(10000),
            r is Some ==> r->0.wf() && r->0.num_days_from_ce() == days,
    {
        if days < 1 {
            return None;
        }
        date_of_ce_day(days as u64)
    }

    pub fn year_number(&self) -> (y: i32)
        ensures
            y == self.year(),
    {
        self.year
    }

    pub fn month_number(&self) -> (m: i32)
        ensures
            m == self.month(),
    {
        self.month
    }

    pub fn day_number(&self) -> (d: i32)
        ensures
            d == self.day(),
    {
        self.day
    }

    /// Whether this is a real date of the supported range; the
    /// constructors only ever hand out dates for which this holds.
    pub fn is_wf(&self) -> (b: bool)
        ensures
            b == self.wf(),
    {
        if self.year < 1 || self.year > 9999 || self.month < 1 || self.month > 12 || self.day < 1 {
            false
        } else {
            self.day <= days_in_month_x(self.year, self.month)
        }
    }
}

/// Whether this layer can render the timestamp, decided at run time.
pub fn timestamp_in_range_check(secs: i64) -> (b: bool)
    ensures
        b == timestamp_in_range(secs as int),
{
    if secs < 0 {
        false
    } else {
        date_of_ce_day(719163 + (secs as u64) / 86400).is_some()
    }
}

/// The ISO rendering of a date: zero-padded `yyyy-mm-dd`.
pub open spec fn iso_chars(d: Date) -> Seq<char> {
    dec_pad(d.year(), 4) + seq!['-'] + dec_pad(d.month(), 2) + seq!['-'] + dec_pad(d.day(), 2)
}

/// Appends the ISO rendering of a date.
pub fn push_date_iso(s: &mut String, d: &Date)
    requires
        d.wf(),
    ensures
        final(s)@ == old(s)@ + iso_chars(*d),
{
    push_u64_pad(s, d.year as u64, 4);
    push_char(s, '-');
    push_u64_pad(s, d.month as u64, 2);
    push_char(s, '-');
    push_u64_pad(s, d.day as u64, 2);
    assert(s@ =~= old(s)@ + iso_chars(*d));
}

/// The day number of 1970-01-01, the Unix epoch.
pub open spec fn unix_epoch_ce_day() -> int {
    719163
}

/// A timestamp this layer can render: non-negative seconds since the
/// epoch, no later than year 9999.
pub open spec fn timestamp_in_range(secs: int) -> bool {
    &&& 0 <= secs
    &&& unix_epoch_ce_day() + secs / 86400 <= days_before_year(10000)
}

/// The rendering of a timestamp: the ISO date of its calendar day,
/// then the time of day, then a `UTC` mark.
pub open spec fn timestamp_chars(secs: int) -> Seq<char> {
    let d = ce_date(unix_epoch_ce_day() + secs / 86400);
    let r = secs % 86400;
    iso_chars(d) + seq![' '] + dec_pad(r / 3600, 2) + seq![':'] + dec_pad((r % 3600) / 60, 2)
        + seq![':'] + dec_pad(r % 60, 2) + seq![' ', 'U', 'T', 'C']
}

/// Appends the rendering of a timestamp.
#[verifier::rlimit(50)]
pub fn push_timestamp(s: &mut String, secs: i64)
    requires
        timestamp_in_range(secs as int),
    ensures
        final(s)@ == old(s)@ + timestamp_chars(secs as int),
{
    let u = secs as u64;
    let days: u64 = u / 86400;
    let r: u64 = u % 86400;
    let d = date_of_ce_day(719163 + days).unwrap();
    proof {
        let n = unix_epoch_ce_day() + secs as int / 86400;
        assert(d.wf() && d.num_days_from_ce() == n);
        assert(ce_date(n).wf() && ce_date(n).num_days_from_ce() == n);
        lemma_days_from_ce_injective(d, ce_date(n));
    }
    push_date_iso(s, &d);
    push_char(s, ' ');
    push_u64_pad(s, r / 3600, 2);
    push_char(s, ':');
    push_u64_pad(s, (r % 3600) / 60, 2);
    push_char(s, ':');
    push_u64_pad(s, r % 60, 2);
    push_char(s, ' ');
    push_char(s, 'U');
    push_char(s, 'T');
    push_char(s, 'C');
    assert(s@ =~= old(s)@ + timestamp_chars(secs as int));
}

} // verus!
