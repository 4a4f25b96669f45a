//! UTC instants as plain values, and the chrono operations the backend uses
//! on them: reading the clock, adding whole seconds, RFC 3339 text.
use vstd::prelude::*;

verus! {

/// Earliest Unix timestamp chrono can represent (-262143-01-01T00:00:00Z).
pub const MIN_TIMESTAMP: i64 = -8_334_601_228_800i64;

/// Latest Unix timestamp chrono can represent (+262142-12-31T23:59:59Z).
pub const MAX_TIMESTAMP: i64 = 8_210_266_876_799i64;

/// First second of year 0000: from here to `MAX_FOUR_DIGIT_YEAR`, RFC 3339 text
/// has a four-digit year.
pub const MIN_FOUR_DIGIT_YEAR: i64 = -62_167_219_200i64;

/// Last second of year 9999.
pub const MAX_FOUR_DIGIT_YEAR: i64 = 253_402_300_799i64;

/// Largest number of whole seconds a chrono `TimeDelta` holds (`i64::MAX / 1000`).
pub const MAX_DELTA_SECONDS: i64 = 9_223_372_036_854_775i64;

/// A UTC instant: whole seconds since the Unix epoch and the nanoseconds past
/// that second. As in chrono, nanoseconds of 1e9 or more mark a leap second,
/// which sits on a second whose number ends in :59.
#[derive(Clone, Copy, Debug, PartialEq, Eq, Structural)]
pub struct UtcTime {
    pub secs: i64,
    pub nanos: u32,
}

impl UtcTime {
    /// The instant is one that chrono's `DateTime<Utc>` can hold.
    pub open spec fn wf(self) -> bool {
        &&& MIN_TIMESTAMP <= self.secs <= MAX_TIMESTAMP
        &&& self.nanos < 2_000_000_000
        &&& self.nanos >= 1_000_000_000 ==> self.secs % 60 == 59
    }

    /// Whether chrono can hold this instant.
    pub fn is_wf(&self) -> (r: bool)
        ensures
            r == self.wf(),
    {
        if self.secs < MIN_TIMESTAMP || self.secs > MAX_TIMESTAMP || self.nanos >= 2_000_000_000 {
            return false;
        }
        if self.nanos < 1_000_000_000 {
            return true;
        }
        let shifted: u64 = (self.secs - MIN_TIMESTAMP) as u64;
        proof {
            vstd::arithmetic::div_mod::lemma_mod_multiples_vanish(
                138_910_020_480,
                self.secs as int,
                60,
            );
            assert(60 * 138_910_020_480int + self.secs as int == shifted as int);
        }
        shifted % 60 == 59
    }

    /// `self` is no later than `other` (chrono's ordering of instants).
    pub open spec fn no_later_than(self, other: UtcTime) -> bool {
        self.secs < other.secs || (self.secs == other.secs && self.nanos <= other.nanos)
    }

    /// Whether `self` is no later than `other`.
    pub fn le(&self, other: &UtcTime) -> (r: bool)
        ensures
            r == self.no_later_than(*other),
    {
        self.secs < other.secs || (self.secs == other.secs && self.nanos <= other.nanos)
    }
}

/// The instant `d` whole seconds after `t`, as chrono computes `t + TimeDelta::seconds(d)`:
/// a leap second is first left for the second that follows it (or, going back, the
/// second it belongs to).
pub open spec fn add_seconds(t: UtcTime, d: int) -> (int, int) {
    if t.nanos >= 1_000_000_000 && d > 0 {
        (t.secs + d, t.nanos - 1_000_000_000)
    } else if t.nanos >= 1_000_000_000 && d < 0 {
        (t.secs + 1 + d, t.nanos - 1_000_000_000)
    } else {
        (t.secs + d, t.nanos as int)
    }
}

/// `t + TimeDelta::seconds(d)` stays within chrono's range.
pub open spec fn add_in_range(t: UtcTime, d: int) -> bool {
    &&& -MAX_DELTA_SECONDS <= d <= MAX_DELTA_SECONDS
    &&& MIN_TIMESTAMP <= add_seconds(t, d).0 <= MAX_TIMESTAMP
}

/// The text chrono's `DateTime::<Utc>::to_rfc3339` writes for an instant.
pub uninterp spec fn rfc3339_text(t: UtcTime) -> Seq<char>;

/// What `DateTime::parse_from_rfc3339(s)` followed by `.with_timezone(&Utc)` gives
/// for a text: the instant, or `None` when chrono rejects the text.
pub uninterp spec fn rfc3339_parse(s: Seq<char>) -> Option<UtcTime>;

/// `chrono::Utc::now()`: the current instant, which lies after the Unix epoch
/// (chrono panics on a clock set before it) and is never a leap second.
/// Which instant it is depends on the clock and is left unsaid.
#[verifier::external_body]
pub(crate) fn now_utc() -> (r: UtcTime)
    ensures
        r.wf(),
        r.secs >= 0,
        r.nanos < 1_000_000_000,
{
    let now = chrono::Utc::now();
    UtcTime { secs: now.timestamp(), nanos: now.timestamp_subsec_nanos() }
}

/// chrono's `DateTime::checked_add_signed(TimeDelta::seconds(d))` on an instant:
/// the sum as `add_seconds` states it, present whenever it lies within chrono's range.
#[verifier::external_body]
pub(crate) fn checked_add_seconds(t: UtcTime, d: i64) -> (r: Option<UtcTime>)
    requires
        t.wf(),
        -MAX_DELTA_SECONDS <= d <= MAX_DELTA_SECONDS,
    ensures
        r matches Some(u) ==> u.secs == add_seconds(t, d as int).0 && u.nanos == add_seconds(
            t,
            d as int,
        ).1,
        add_in_range(t, d as int) ==> r is Some,
{
    let dt = chrono::DateTime::<chrono::Utc>::from_timestamp(t.secs, t.nanos).unwrap();
    dt.checked_add_signed(chrono::TimeDelta::seconds(d)).map(
        |u| UtcTime { secs: u.timestamp(), nanos: u.timestamp_subsec_nanos() },
    )
}

/// chrono's `DateTime::<Utc>::to_rfc3339` on an instant. For a year of four
/// digits, `parse_from_rfc3339` reads the text back as the same instant (chrono
/// writes every nonzero nanosecond and a leap second as `:60`, and reads both back).
#[verifier::external_body]
pub(crate) fn to_rfc3339(t: UtcTime) -> (r: String)
    requires
        t.wf(),
    ensures
        r@ == rfc3339_text(t),
        MIN_FOUR_DIGIT_YEAR <= t.secs <= MAX_FOUR_DIGIT_YEAR ==> rfc3339_parse(r@) == Some(t),
{
    chrono::DateTime::<chrono::Utc>::from_timestamp(t.secs, t.nanos).unwrap().to_rfc3339()
}

/// chrono's `DateTime::parse_from_rfc3339(s)` taken to UTC; what it accepts is
/// named, and an accepted text gives an instant chrono can hold.
#[verifier::external_body]
pub(crate) fn parse_rfc3339(s: &str) -> (r: Option<UtcTime>)
    ensures
        r == rfc3339_parse(s@),
        r matches Some(u) ==> u.wf(),
{
    match chrono::DateTime::parse_from_rfc3339(s) {
        Ok(d) => {
            let u = d.with_timezone(&chrono::Utc);
            Some(UtcTime { secs: u.timestamp(), nanos: u.timestamp_subsec_nanos() })
        },
        Err(_) => None,
    }
}

/// `t + TimeDelta::seconds(d)`, which chrono computes only within its range
/// (outside it, chrono's `+` panics).
pub fn plus_seconds(t: UtcTime, d: i64) -> (r: UtcTime)
    requires
        t.wf(),
        add_in_range(t, d as int),
    ensures
        r.secs == add_seconds(t, d as int).0,
        r.nanos == add_seconds(t, d as int).1,
        r.wf(),
{
    match checked_add_seconds(t, d) {
        Some(u) => {
            proof {
                lemma_add_keeps_wf(t, d as int);
            }
            u
        },
        None => {
            proof {
                assert(false);
            }
            t
        },
    }
}

proof fn lemma_add_keeps_wf(t: UtcTime, d: int)
    requires
        t.wf(),
        add_in_range(t, d),
    ensures
        add_seconds(t, d).1 < 2_000_000_000,
        add_seconds(t, d).1 >= 0,
        add_seconds(t, d).1 >= 1_000_000_000 ==> add_seconds(t, d).0 % 60 == 59,
{
}

/// Whether `t + TimeDelta::seconds(d)` can be computed.
pub fn can_add_seconds(t: UtcTime, d: i64) -> (r: bool)
    requires
        t.wf(),
    ensures
        r == add_in_range(t, d as int),
{
    if d < -MAX_DELTA_SECONDS || d > MAX_DELTA_SECONDS {
        return false;
    }
    let base: i64 = if t.nanos >= 1_000_000_000 && d < 0 {
        t.secs + 1
    } else {
        t.secs
    };
    let target: i64 = base + d;
    MIN_TIMESTAMP <= target && target <= MAX_TIMESTAMP
}

} // verus!
