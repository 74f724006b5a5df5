//! Instants and times of day, as plain numbers. The calendar text of an
//! instant is read and written by `chrono`; the clock is read from `chrono`.
use vstd::prelude::*;

use chrono::{DateTime, NaiveTime, Timelike, Utc};

verus! {

/// The first second that `chrono` can represent: year -262143, January 1st.
pub const MIN_SECS: i64 = -8334601315200;

/// The last second that `chrono` can represent: year 262142, December 31st, 23:59:59.
pub const MAX_SECS: i64 = 8210266876799;

pub const NANOS_PER_SEC: u32 = 1_000_000_000;

pub const SECS_PER_DAY: i64 = 86_400;

/// An instant in UTC: whole seconds since 1970-01-01 00:00:00 UTC and the
/// nanoseconds past that second. As in `chrono`, the nanoseconds reach past
/// one second only inside a leap second, which ends a minute.
#[derive(Clone, Copy, Debug, PartialEq, Eq, Structural, Hash, PartialOrd, Ord)]
pub struct Timestamp {
    pub secs: i64,
    pub nanos: u32,
}

/// A time of day: seconds since midnight and the nanoseconds past that second.
#[derive(Clone, Copy, Debug, PartialEq, Eq, Structural, Hash, PartialOrd, Ord)]
pub struct TimeOfDay {
    pub secs: u32,
    pub nanos: u32,
}

/// The instant that `chrono` reads from a text with `str::parse::<DateTime<Utc>>`
/// (RFC 3339, relaxed), if it reads one.
pub uninterp spec fn chrono_parse_datetime(s: Seq<char>) -> Option<Timestamp>;

/// The text that `chrono` writes for an instant with `DateTime<Utc>`'s `Display`,
/// as in `2015-05-15 00:00:00 UTC`.
pub uninterp spec fn chrono_format_datetime(t: Timestamp) -> Seq<char>;

/// The time of day that `chrono` reads from a text with `NaiveTime::parse_from_str(_, "%H:%M:%S")`.
pub uninterp spec fn chrono_parse_time_hms(s: Seq<char>) -> Option<TimeOfDay>;

/// The two decimal digits of a number below 100.
pub open spec fn two_digits(n: int) -> Seq<char> {
    seq![(48 + n / 10) as char, (48 + n % 10) as char]
}

/// The text that `chrono` writes for a time of day with `format("%H:%M:%S")`:
/// hour, minute and second in two digits each, the second of a leap second
/// written as 60.
pub open spec fn chrono_format_time_hms(t: TimeOfDay) -> Seq<char> {
    let sec: int = t.secs % 60 + (if t.nanos >= NANOS_PER_SEC { 1int } else { 0int });
    two_digits((t.secs / 3600) as int) + seq![':'] + two_digits(((t.secs % 3600) / 60) as int) + seq![':'] + two_digits(sec)
}

/// Whether an optional instant is present and one that `chrono` represents.
pub open spec fn some_valid(o: Option<Timestamp>) -> bool {
    o matches Some(t) && t.valid()
}

impl Timestamp {
    /// The instants that `chrono` represents (`DateTime::from_timestamp` accepts them).
    pub open spec fn valid(self) -> bool {
        &&& MIN_SECS <= self.secs <= MAX_SECS
        &&& (self.nanos < NANOS_PER_SEC || (self.nanos < 2 * NANOS_PER_SEC && self.secs % 60 == 59))
    }

    /// The order of instants, which is that of (seconds, nanoseconds).
    pub open spec fn precedes(self, other: Timestamp) -> bool {
        self.secs < other.secs || (self.secs == other.secs && self.nanos < other.nanos)
    }

    /// The instant `k` whole seconds later, as `chrono` adds a `TimeDelta` of whole
    /// seconds: a leap second is left as soon as the instant moves.
    pub open spec fn spec_plus_seconds(self, k: int) -> (int, int) {
        if k == 0 {
            (self.secs as int, self.nanos as int)
        } else if self.nanos >= NANOS_PER_SEC && k > 0 {
            (self.secs + k, self.nanos - NANOS_PER_SEC)
        } else if self.nanos >= NANOS_PER_SEC {
            (self.secs + 1 + k, self.nanos - NANOS_PER_SEC)
        } else {
            (self.secs + k, self.nanos as int)
        }
    }

    /// Whether `chrono` can add `k` seconds without leaving its range.
    pub open spec fn can_add_seconds(self, k: int) -> bool {
        MIN_SECS <= self.spec_plus_seconds(k).0 <= MAX_SECS
    }

    /// The time of day of the instant, in UTC.
    pub open spec fn spec_time_of_day(self) -> TimeOfDay {
        TimeOfDay { secs: (self.secs % SECS_PER_DAY) as u32, nanos: self.nanos }
    }

    /// 1970-01-01 00:00:00 UTC.
    pub fn unix_epoch() -> (res: Timestamp)
        ensures
            res == (Timestamp { secs: 0, nanos: 0 }),
            res.valid(),
    {
        Timestamp { secs: 0, nanos: 0 }
    }

    /// The instant with these seconds and nanoseconds, if `chrono` represents it
    /// (as `DateTime::from_timestamp` decides).
    pub fn from_unix(secs: i64, nanos: u32) -> (res: Option<Timestamp>)
        ensures
            res is Some <==> (Timestamp { secs, nanos }).valid(),
            res is Some ==> res == Some(Timestamp { secs, nanos }),
    {
        if MIN_SECS <= secs && secs <= MAX_SECS
            && (nanos < NANOS_PER_SEC || (nanos < 2 * NANOS_PER_SEC && rem_euclid(secs, 60) == 59)) {
            Some(Timestamp { secs, nanos })
        } else {
            None
        }
    }

    /// Whether `self` comes strictly before `other`.
    pub fn is_before(&self, other: &Timestamp) -> (res: bool)
        ensures
            res == self.precedes(*other),
    {
        self.secs < other.secs || (self.secs == other.secs && self.nanos < other.nanos)
    }

    /// Whether `self` comes strictly after `other`.
    pub fn is_after(&self, other: &Timestamp) -> (res: bool)
        ensures
            res == other.precedes(*self),
    {
        other.is_before(self)
    }

    /// The instant `k` whole seconds later; `chrono` panics outside its range.
    pub fn plus_seconds(&self, k: i64) -> (res: Timestamp)
        requires
            self.valid(),
            self.can_add_seconds(k as int),
        ensures
            res.secs == self.spec_plus_seconds(k as int).0,
            res.nanos == self.spec_plus_seconds(k as int).1,
            res.valid(),
    {
        if k == 0 {
            *self
        } else if self.nanos >= NANOS_PER_SEC && k > 0 {
            Timestamp { secs: self.secs + k, nanos: self.nanos - NANOS_PER_SEC }
        } else if self.nanos >= NANOS_PER_SEC {
            Timestamp { secs: self.secs + 1 + k, nanos: self.nanos - NANOS_PER_SEC }
        } else {
            Timestamp { secs: self.secs + k, nanos: self.nanos }
        }
    }

    /// Whether `chrono` can add `k` seconds without leaving its range.
    pub fn can_add(&self, k: i64) -> (res: bool)
        ensures
            res == self.can_add_seconds(k as int),
    {
        let base = self.secs as i128;
        let s: i128 = if k == 0 {
            base
        } else if self.nanos >= NANOS_PER_SEC && k > 0 {
            base + k as i128
        } else if self.nanos >= NANOS_PER_SEC {
            base + 1 + k as i128
        } else {
            base + k as i128
        };
        MIN_SECS as i128 <= s && s <= MAX_SECS as i128
    }

    /// The time of day of the instant, in UTC (`DateTime::time`).
    pub fn time_of_day(&self) -> (res: TimeOfDay)
        ensures
            res == self.spec_time_of_day(),
    {
        TimeOfDay { secs: rem_euclid(self.secs, SECS_PER_DAY) as u32, nanos: self.nanos }
    }
}

proof fn lemma_mod_unique(a: int, m: int, q: int, r: int)
    requires
        m > 0,
        0 <= r < m,
        a == q * m + r,
    ensures
        a % m == r,
{
    vstd::arithmetic::div_mod::lemma_fundamental_div_mod_converse(a, m, q, r);
}

/// The non-negative remainder of `a` divided by `m` (`i64::rem_euclid`).
fn rem_euclid(a: i64, m: i64) -> (res: i64)
    requires
        m > 0,
    ensures
        res == a % m,
        0 <= res < m,
{
    if a >= 0 {
        a % m
    } else {
        let b = -(a + 1);
        let r0 = b % m;
        proof {
            assert(b == (b / m) * m + r0) by (nonlinear_arith)
                requires b >= 0, m > 0, r0 == b % m;
            assert(a == -(b / m + 1) * m + (m - 1 - r0)) by (nonlinear_arith)
                requires b == (b / m) * m + r0, a == -(b + 1);
            assert(0 <= r0 < m);
            lemma_mod_unique(a as int, m as int, -(b / m + 1), (m - 1 - r0) as int);
        }
        m - 1 - r0
    }
}

impl TimeOfDay {
    /// The times of day that `chrono` represents.
    pub open spec fn valid(self) -> bool {
        &&& self.secs < 86_400
        &&& (self.nanos < NANOS_PER_SEC || (self.nanos < 2 * NANOS_PER_SEC && self.secs % 60 == 59))
    }

    /// The order of times of day, which is that of (seconds, nanoseconds).
    pub open spec fn precedes(self, other: TimeOfDay) -> bool {
        self.secs < other.secs || (self.secs == other.secs && self.nanos < other.nanos)
    }

    /// Whether `self` comes no later than `other`.
    pub fn is_at_or_before(&self, other: &TimeOfDay) -> (res: bool)
        ensures
            res == !other.precedes(*self),
    {
        self.secs < other.secs || (self.secs == other.secs && self.nanos <= other.nanos)
    }

    /// The time with these hours, minutes and seconds (`NaiveTime::from_hms_opt`).
    pub fn from_hms(hour: u32, min: u32, sec: u32) -> (res: Option<TimeOfDay>)
        ensures
            res is Some <==> (hour < 24 && min < 60 && sec < 60),
            res is Some ==> res == Some(TimeOfDay { secs: (hour * 3600 + min * 60 + sec) as u32, nanos: 0 }),
    {
        if hour < 24 && min < 60 && sec < 60 {
            Some(TimeOfDay { secs: hour * 3600 + min * 60 + sec, nanos: 0 })
        } else {
            None
        }
    }
}

/// The signed time from `b` to `a` as `chrono` measures it (`a - b`, a
/// `TimeDelta`): whole seconds, leap seconds counted, and the nanoseconds past
/// them, which lie in `0 .. 10^9`.
pub open spec fn spec_delta(a: Timestamp, b: Timestamp) -> (int, int) {
    let ta = a.secs % SECS_PER_DAY;
    let tb = b.secs % SECS_PER_DAY;
    let days = a.secs / SECS_PER_DAY - b.secs / SECS_PER_DAY;
    let leap: int = if ta > tb && b.nanos >= NANOS_PER_SEC {
        1
    } else if ta < tb && a.nanos >= NANOS_PER_SEC {
        -1
    } else {
        0
    };
    let frac = a.nanos - b.nanos;
    (days * SECS_PER_DAY + (ta - tb) + leap + frac / (NANOS_PER_SEC as int), frac % (NANOS_PER_SEC as int))
}

/// `TimeDelta::num_seconds` of the time from `b` to `a`: its whole seconds,
/// rounded toward zero.
pub open spec fn spec_num_seconds(a: Timestamp, b: Timestamp) -> int {
    let (secs, nanos) = spec_delta(a, b);
    if secs < 0 && nanos > 0 { secs + 1 } else { secs }
}

/// `TimeDelta::subsec_nanos` of the time from `b` to `a`: the nanoseconds past
/// its whole seconds, negative for a negative time.
pub open spec fn spec_subsec_nanos(a: Timestamp, b: Timestamp) -> int {
    let (secs, nanos) = spec_delta(a, b);
    if secs < 0 && nanos > 0 { nanos - NANOS_PER_SEC } else { nanos }
}

/// The signed time from `b` to `a` with `DateTime`'s subtraction, as
/// `TimeDelta::num_seconds` (whole seconds, rounded toward zero) and
/// `TimeDelta::subsec_nanos` (the nanoseconds past them, with the sign of the
/// time) give it.
#[verifier::external_body]
pub(crate) fn time_between(a: &Timestamp, b: &Timestamp) -> (res: (i64, i32))
    requires
        a.valid(),
        b.valid(),
    ensures
        res.0 == spec_num_seconds(*a, *b),
        res.1 == spec_subsec_nanos(*a, *b),
{
    let x = DateTime::from_timestamp(a.secs, a.nanos).unwrap();
    let y = DateTime::from_timestamp(b.secs, b.nanos).unwrap();
    let d = x - y;
    (d.num_seconds(), d.subsec_nanos())
}

/// The whole days from `b` to `a`, rounded down: the time between them as
/// `chrono` measures it, in days.
pub open spec fn spec_days_until(a: Timestamp, b: Timestamp) -> int {
    spec_delta(a, b).0 / SECS_PER_DAY as int
}

proof fn lemma_floor_div_negative(w: int, m: int)
    requires
        w < 0,
        m > 0,
    ensures
        w / m == -((-w - 1) / m) - 1,
        w / m < 0,
{
    let p = -w - 1;
    let q = p / m;
    let r = p % m;
    vstd::arithmetic::div_mod::lemma_fundamental_div_mod(p, m);
    assert(0 <= r < m);
    assert(w == m * (-q - 1) + (m - r - 1)) by (nonlinear_arith)
        requires p == m * q + r, w == -p - 1;
    vstd::arithmetic::div_mod::lemma_fundamental_div_mod_converse(w, m, -q - 1, m - r - 1);
}

proof fn lemma_delta_sign(a: Timestamp, b: Timestamp)
    requires
        a.valid(),
        b.valid(),
        a.nanos < NANOS_PER_SEC,
        b.nanos < NANOS_PER_SEC,
    ensures
        spec_delta(a, b).0 < 0 <==> a.precedes(b),
{
    vstd::arithmetic::div_mod::lemma_fundamental_div_mod(a.secs as int, SECS_PER_DAY as int);
    vstd::arithmetic::div_mod::lemma_fundamental_div_mod(b.secs as int, SECS_PER_DAY as int);
    let frac = a.nanos - b.nanos;
    if frac < 0 {
        vstd::arithmetic::div_mod::lemma_fundamental_div_mod_converse(frac, NANOS_PER_SEC as int, -1, frac + NANOS_PER_SEC);
    } else {
        vstd::arithmetic::div_mod::lemma_fundamental_div_mod_converse(frac, NANOS_PER_SEC as int, 0, frac);
    }
    assert((a.secs / SECS_PER_DAY - b.secs / SECS_PER_DAY) * SECS_PER_DAY + (a.secs % SECS_PER_DAY - b.secs % SECS_PER_DAY)
        == a.secs - b.secs) by (nonlinear_arith)
        requires
            a.secs == SECS_PER_DAY * (a.secs / SECS_PER_DAY) + a.secs % SECS_PER_DAY,
            b.secs == SECS_PER_DAY * (b.secs / SECS_PER_DAY) + b.secs % SECS_PER_DAY;
}

/// The whole days from `b` to `a`, rounded down, so negative exactly when
/// `a` comes before `b` (for instants outside a leap second).
pub fn days_until(a: &Timestamp, b: &Timestamp) -> (res: i64)
    requires
        a.valid(),
        b.valid(),
    ensures
        res == spec_days_until(*a, *b),
        a.nanos < NANOS_PER_SEC && b.nanos < NANOS_PER_SEC ==> (res < 0 <==> a.precedes(*b)),
{
    let (s, n) = time_between(a, b);
    let whole: i128 = if n < 0 { s as i128 - 1 } else { s as i128 };
    proof {
        assert(whole == spec_delta(*a, *b).0);
        if a.nanos < NANOS_PER_SEC && b.nanos < NANOS_PER_SEC {
            lemma_delta_sign(*a, *b);
        }
    }
    let day = SECS_PER_DAY as i128;
    if whole >= 0 {
        let q = whole / day;
        assert(q <= whole) by (nonlinear_arith)
            requires whole >= 0, day == 86400, q == whole / day;
        q as i64
    } else {
        let p = -(whole + 1);
        let q = p / day;
        proof {
            lemma_floor_div_negative(whole as int, day as int);
        }
        assert(q <= p) by (nonlinear_arith)
            requires p >= 0, day == 86400, q == p / day;
        (-q - 1) as i64
    }
}

/// Reads the clock (`Utc::now`).
#[verifier::external_body]
pub(crate) fn now() -> (res: Timestamp)
    ensures
        res.valid(),
{
    let d = Utc::now();
    Timestamp { secs: d.timestamp(), nanos: d.timestamp_subsec_nanos() }
}

/// Reads an instant from its text with `str::parse::<DateTime<Utc>>`.
#[verifier::external_body]
pub(crate) fn parse_datetime(s: &str) -> (res: Option<Timestamp>)
    ensures
        res == chrono_parse_datetime(s@),
        res matches Some(t) ==> t.valid(),
{
    match s.parse::<DateTime<Utc>>() {
        Ok(d) => Some(Timestamp { secs: d.timestamp(), nanos: d.timestamp_subsec_nanos() }),
        Err(_) => None,
    }
}

/// Writes an instant with `DateTime<Utc>`'s `Display`. `chrono` reads the
/// text back to the same instant: its parser accepts the `UTC` suffix, the
/// fraction that `Display` writes, the second 60 of a leap second, and the
/// signed years that `Display` writes outside 0 to 9999.
#[verifier::external_body]
pub(crate) fn format_datetime(t: &Timestamp) -> (res: String)
    requires
        t.valid(),
    ensures
        res@ == chrono_format_datetime(*t),
        chrono_parse_datetime(res@) == Some(*t),
{
    DateTime::from_timestamp(t.secs, t.nanos).unwrap().to_string()
}

/// Reads a time of day with `NaiveTime::parse_from_str(s, "%H:%M:%S")`.
#[verifier::external_body]
pub(crate) fn parse_time_hms(s: &str) -> (res: Option<TimeOfDay>)
    ensures
        res == chrono_parse_time_hms(s@),
        res matches Some(t) ==> t.valid(),
{
    match NaiveTime::parse_from_str(s, "%H:%M:%S") {
        Ok(t) => Some(TimeOfDay { secs: t.num_seconds_from_midnight(), nanos: t.nanosecond() }),
        Err(_) => None,
    }
}

/// Writes a time of day with `format("%H:%M:%S")`. A time on a whole second
/// that is not a leap second is read back by `parse_time_hms` unchanged.
#[verifier::external_body]
pub(crate) fn format_time_hms(t: &TimeOfDay) -> (res: String)
    requires
        t.valid(),
    ensures
        res@ == chrono_format_time_hms(*t),
        t.nanos == 0 ==> chrono_parse_time_hms(res@) == Some(*t),
{
    NaiveTime::from_num_seconds_from_midnight_opt(t.secs, t.nanos).unwrap().format("%H:%M:%S").to_string()
}

} // verus!
