//! Instants, calendar months and RFC 3339 timestamps, as the chrono crate
//! computes them.

use chrono::{DateTime, Datelike, TimeDelta};
use std::time::{SystemTime, UNIX_EPOCH};
use vstd::prelude::*;

verus! {

/// An instant: whole non-leap seconds since 1970-01-01T00:00:00Z and the
/// nanoseconds since that second (more than 999,999,999 during a leap second).
#[derive(Clone, Copy, Debug, PartialEq, Eq, Structural)]
pub struct Timestamp {
    pub secs: i64,
    pub nanos: u32,
}

/// What is read out of an RFC 3339 string: the instant it denotes, and the
/// year and month of its date as written (in the string's own offset).
#[derive(Clone, Copy, Debug, PartialEq, Eq, Structural)]
pub struct ParsedInstant {
    pub instant: Timestamp,
    pub year: i32,
    pub month: u32,
}

/// `a` comes strictly before `b` (chrono orders instants by their UTC date
/// and time, which is the order of these two numbers).
pub open spec fn before(a: Timestamp, b: Timestamp) -> bool {
    a.secs < b.secs || (a.secs == b.secs && a.nanos < b.nanos)
}

/// Whether `a` comes strictly before `b`.
pub fn is_before(a: Timestamp, b: Timestamp) -> (r: bool)
    ensures
        r == before(a, b),
{
    a.secs < b.secs || (a.secs == b.secs && a.nanos < b.nanos)
}

/// What `DateTime::parse_from_rfc3339` gives for a string, read out as
/// plain values; `None` where it refuses the string.
pub uninterp spec fn parsed_rfc3339(s: Seq<char>) -> Option<ParsedInstant>;

/// The last second of the year 9999, the last year RFC 3339 can write with
/// four digits: 9999-12-31T23:59:59Z.
pub const LAST_FOUR_DIGIT_YEAR_SECS: i64 = 253_402_300_799;

/// How many days a premium license lasts when the backend names no expiry.
pub const SUBSCRIPTION_DURATION_DAYS: i64 = 365;

/// Seconds in a day.
pub const SECS_PER_DAY: i64 = 86_400;

/// The UTC year, month and RFC 3339 text (`DateTime::<Utc>::to_rfc3339`) of
/// the instant `(secs, nanos)`; `None` outside chrono's range.
pub uninterp spec fn utc_calendar(secs: i64, nanos: u32) -> Option<(i32, u32, Seq<char>)>;

/// The RFC 3339 text (as `DateTime::<Utc>::to_rfc3339` writes it) of the
/// instant `days` days after `(secs, nanos)`; `None` where either instant is
/// outside chrono's range.
pub uninterp spec fn utc_rfc3339_days_later(secs: i64, nanos: u32, days: i64) -> Option<Seq<char>>;

/// The instant lies between 1970 and the end of the year 9999, on a whole
/// nanosecond count below one second (no leap second).
pub open spec fn plain_four_digit_year_instant(secs: int, nanos: u32) -> bool {
    0 <= secs <= LAST_FOUR_DIGIT_YEAR_SECS && nanos < 1_000_000_000
}

/// Calls `DateTime::parse_from_rfc3339` and reads the result's timestamp,
/// sub-second nanoseconds, year and month (1 to 12, as `Datelike::month`
/// documents). Which strings it accepts, and what they denote, is named
/// by `parsed_rfc3339`, not described.
#[verifier::external_body]
pub(crate) fn parse_rfc3339(s: &str) -> (r: Option<ParsedInstant>)
    ensures
        r == parsed_rfc3339(s@),
        r matches Some(p) ==> 1 <= p.month <= 12,
{
    match DateTime::parse_from_rfc3339(s) {
        Ok(d) => Some(
            ParsedInstant {
                instant: Timestamp { secs: d.timestamp(), nanos: d.timestamp_subsec_nanos() },
                year: d.year(),
                month: d.month(),
            },
        ),
        Err(_) => None,
    }
}

/// Takes `(secs, nanos)` as a `DateTime<Utc>` (`DateTime::from_timestamp`)
/// and reads its year, month (1 to 12) and RFC 3339 text (`to_rfc3339`).
/// Stated from chrono's source: every instant of the years 1970 to 9999
/// off a leap second is in range; and for a year from 0 to 9999 and no leap
/// second, `write_rfc3339` writes four-digit year, month, day, time, the
/// needed fractional digits and "+00:00", which `parse_rfc3339` reads back
/// to the same instant, year and month. The calendar itself is named, not
/// described.
#[verifier::external_body]
pub(crate) fn utc_calendar_of(secs: i64, nanos: u32) -> (r: Option<(i32, u32, String)>)
    ensures
        match r {
            Some((y, m, t)) => {
                &&& utc_calendar(secs, nanos) == Some((y, m, t@))
                &&& 1 <= m <= 12
                &&& (0 <= y <= 9999 && nanos < 1_000_000_000) ==> parsed_rfc3339(t@) == Some(
                    ParsedInstant { instant: Timestamp { secs, nanos }, year: y, month: m },
                )
            },
            None => utc_calendar(secs, nanos) is None,
        },
        plain_four_digit_year_instant(secs as int, nanos) ==> r is Some,
{
    match DateTime::from_timestamp(secs, nanos) {
        Some(d) => Some((d.year(), d.month(), d.to_rfc3339())),
        None => None,
    }
}

/// Adds `days` days (`TimeDelta::days`, `DateTime::checked_add_signed`) to
/// the instant `(secs, nanos)` taken as a `DateTime<Utc>`, and writes the
/// sum with `to_rfc3339`. The bound on `days` keeps `TimeDelta::days` from
/// panicking. Stated from chrono's source: off a leap second the sum is
/// `days * 86 400` seconds later with the same nanoseconds, and when it falls
/// in the years 1970 to 9999 its text parses back to it. The text itself is
/// named, not described.
#[verifier::external_body]
pub(crate) fn rfc3339_days_later(secs: i64, nanos: u32, days: i64) -> (r: Option<String>)
    requires
        -1_000_000_000 <= days <= 1_000_000_000,
    ensures
        r.deep_view() == utc_rfc3339_days_later(secs, nanos, days),
        r is Some <== 0 <= days && plain_four_digit_year_instant(secs as int, nanos)
            && plain_four_digit_year_instant(secs + days * SECS_PER_DAY, nanos),
        r matches Some(t) ==> (0 <= days && plain_four_digit_year_instant(secs as int, nanos)
            && plain_four_digit_year_instant(secs + days * SECS_PER_DAY, nanos) ==> (parsed_rfc3339(
            t@,
        ) matches Some(p) && p.instant == Timestamp {
            secs: (secs + days * SECS_PER_DAY) as i64,
            nanos,
        })),
{
    match DateTime::from_timestamp(secs, nanos) {
        Some(start) => match start.checked_add_signed(TimeDelta::days(days)) {
            Some(end) => Some(end.to_rfc3339()),
            None => None,
        },
        None => None,
    }
}

/// Reads the system clock (`SystemTime::now`, `duration_since(UNIX_EPOCH)`),
/// as `Utc::now` does but without its panic: `None` for a clock set before
/// 1970. The nanoseconds of a `Duration` are below one second, as its
/// documentation says; nothing is claimed of which instant comes back.
#[verifier::external_body]
fn system_clock() -> (r: Option<(u64, u32)>)
    ensures
        r matches Some((_, n)) ==> n < 1_000_000_000,
{
    match SystemTime::now().duration_since(UNIX_EPOCH) {
        Ok(d) => Some((d.as_secs(), d.subsec_nanos())),
        Err(_) => None,
    }
}

/// A clock reading seen as plain values.
pub struct NowView {
    pub instant: Timestamp,
    pub year: i32,
    pub month: u32,
    pub rfc3339: Seq<char>,
    pub license_expiry: Option<Seq<char>>,
}

/// The parts of a clock reading agree: year, month and text are those chrono
/// gives the instant; the text reads back as the instant, year and month
/// wherever RFC 3339 can write the year; the license expiry is the instant a
/// year later, and reads back as such while it lies before the year 10000.
pub open spec fn clock_wf(n: NowView) -> bool {
    &&& 1 <= n.month <= 12
    &&& n.instant.nanos < 1_000_000_000
    &&& utc_calendar(n.instant.secs, n.instant.nanos) == Some((n.year, n.month, n.rfc3339))
    &&& 0 <= n.year <= 9999 ==> parsed_rfc3339(n.rfc3339) == Some(
        ParsedInstant { instant: n.instant, year: n.year, month: n.month },
    )
    &&& n.license_expiry == utc_rfc3339_days_later(
        n.instant.secs,
        n.instant.nanos,
        SUBSCRIPTION_DURATION_DAYS,
    )
    &&& plain_four_digit_year_instant(n.instant.secs as int, n.instant.nanos)
        && plain_four_digit_year_instant(
        n.instant.secs + SUBSCRIPTION_DURATION_DAYS * SECS_PER_DAY,
        n.instant.nanos,
    ) ==> (n.license_expiry matches Some(t) && parsed_rfc3339(t) matches Some(p) && p.instant
        == license_end(n.instant))
}

/// The instant a license taken at `t` for the standard duration ends.
pub open spec fn license_end(t: Timestamp) -> Timestamp {
    Timestamp { secs: (t.secs + SUBSCRIPTION_DURATION_DAYS * SECS_PER_DAY) as i64, nanos: t.nanos }
}

/// One reading of the clock, in UTC, with its calendar month, its RFC 3339
/// text and the end of a yearly license taken at that instant.
pub struct Now {
    pub(crate) instant: Timestamp,
    pub(crate) year: i32,
    pub(crate) month: u32,
    pub(crate) rfc3339: String,
    pub(crate) license_expiry: Option<String>,
}

impl View for Now {
    type V = NowView;

    closed spec fn view(&self) -> NowView {
        NowView {
            instant: self.instant,
            year: self.year,
            month: self.month,
            rfc3339: self.rfc3339@,
            license_expiry: self.license_expiry.deep_view(),
        }
    }
}

impl Now {
    #[verifier::type_invariant]
    closed spec fn inv(self) -> bool {
        clock_wf(self@)
    }

    /// The reading at instant `t`; `None` for a leap second or an instant
    /// outside chrono's range.
    pub fn at(t: Timestamp) -> (r: Option<Now>)
        ensures
            match r {
                Some(n) => n@.instant == t && clock_wf(n@),
                None => t.nanos >= 1_000_000_000 || utc_calendar(t.secs, t.nanos) is None,
            },
            plain_four_digit_year_instant(t.secs as int, t.nanos) ==> r is Some,
    {
        if t.nanos >= 1_000_000_000 {
            return None;
        }
        let (year, month, rfc3339) = match utc_calendar_of(t.secs, t.nanos) {
            Some(c) => c,
            None => return None,
        };
        let license_expiry = rfc3339_days_later(t.secs, t.nanos, SUBSCRIPTION_DURATION_DAYS);
        let n = Now { instant: t, year, month, rfc3339, license_expiry };
        Some(n)
    }

    /// The instant of the reading.
    pub fn instant(&self) -> (r: Timestamp)
        ensures
            r == self@.instant,
    {
        self.instant
    }

    /// The UTC year of the reading.
    pub fn year(&self) -> (r: i32)
        ensures
            r == self@.year,
    {
        self.year
    }

    /// The UTC month of the reading, 1 to 12.
    pub fn month(&self) -> (r: u32)
        ensures
            r == self@.month,
    {
        self.month
    }

    /// The reading written as RFC 3339.
    pub fn rfc3339(&self) -> (r: &str)
        ensures
            r@ == self@.rfc3339,
    {
        self.rfc3339.as_str()
    }

    /// When a yearly license taken at this reading ends, written as RFC
    /// 3339; `None` beyond the range of dates chrono holds.
    pub fn license_expiry(&self) -> (r: Option<&str>)
        ensures
            r.deep_view() == self@.license_expiry,
    {
        match &self.license_expiry {
            Some(e) => Some(e.as_str()),
            None => None,
        }
    }

    /// The parts of the reading agree.
    pub fn wf(&self)
        ensures
            clock_wf(self@),
    {
        proof {
            use_type_invariant(self);
        }
    }
}

/// Reads the system clock; `None` when it is set before 1970 or beyond the
/// range of dates chrono holds.
pub fn read_clock() -> (now: Option<Now>)
    ensures
        now matches Some(n) ==> clock_wf(n@),
{
    let (secs, nanos) = match system_clock() {
        Some(r) => r,
        None => return None,
    };
    if secs > i64::MAX as u64 {
        return None;
    }
    Now::at(Timestamp { secs: secs as i64, nanos })
}

} // verus!
