//! Instants of time as plain numbers, their order, and their RFC 3339 text.

use vstd::prelude::*;
use crate::error_handling::{AppError, StatusCode};

verus! {

/// An instant: whole seconds since the Unix epoch, and nanoseconds past that
/// second.
#[derive(Debug, Clone, Copy, PartialEq, Eq, Structural)]
pub struct Timestamp {
    pub secs: i64,
    pub nanos: u32,
}

/// What `chrono::DateTime::parse_from_rfc3339` makes of a text: the instant it
/// denotes, or the printed parse error.
pub uninterp spec fn rfc3339_parse(s: Seq<char>) -> Result<Timestamp, Seq<char>>;

/// The RFC 3339 text that chrono prints for the UTC instant of the given
/// seconds and nanoseconds; `None` where chrono cannot represent the instant.
pub uninterp spec fn rfc3339_text(secs: int, nanos: int) -> Option<Seq<char>>;

/// The text that chrono prints for the UTC instant under the format `(%c)`;
/// `None` where chrono cannot represent the instant.
pub uninterp spec fn ctime_text(secs: int, nanos: int) -> Option<Seq<char>>;

/// Calls `chrono::DateTime::parse_from_rfc3339`, which parses a date-and-time
/// text with an offset. A parsed value is handed on as its Unix timestamp and
/// its nanoseconds (`timestamp`, `timestamp_subsec_nanos`), an error as its
/// printed form. The result depends on the text alone.
#[verifier::external_body]
pub(crate) fn parse_rfc3339(s: &str) -> (r: Result<Timestamp, String>)
    ensures
        r is Ok <==> rfc3339_parse(s@) is Ok,
        r is Ok ==> r->Ok_0 == rfc3339_parse(s@)->Ok_0,
        r is Err ==> r->Err_0@ == rfc3339_parse(s@)->Err_0,
{
    match chrono::DateTime::parse_from_rfc3339(s) {
        Ok(dt) => Ok(Timestamp { secs: dt.timestamp(), nanos: dt.timestamp_subsec_nanos() }),
        Err(e) => Err(e.to_string()),
    }
}

/// Calls `chrono::DateTime::from_timestamp` and, on the instant it gives,
/// `to_rfc3339`. The first returns `None` for seconds out of chrono's range or
/// nanoseconds that are not valid; the second prints the instant in UTC.
#[verifier::external_body]
pub(crate) fn format_rfc3339(secs: i64, nanos: u32) -> (r: Option<String>)
    ensures
        r is Some <==> rfc3339_text(secs as int, nanos as int) is Some,
        r is Some ==> r->Some_0@ == rfc3339_text(secs as int, nanos as int)->Some_0,
{
    match chrono::DateTime::from_timestamp(secs, nanos) {
        Some(dt) => Some(dt.to_rfc3339()),
        None => None,
    }
}

/// Calls `chrono::DateTime::from_timestamp` and, on the instant it gives,
/// `format` with the pattern `(%c)`: the date and time in words, in brackets.
#[verifier::external_body]
pub(crate) fn format_ctime(secs: i64, nanos: u32) -> (r: Option<String>)
    ensures
        r is Some <==> ctime_text(secs as int, nanos as int) is Some,
        r is Some ==> r->Some_0@ == ctime_text(secs as int, nanos as int)->Some_0,
{
    match chrono::DateTime::from_timestamp(secs, nanos) {
        Some(dt) => Some(dt.format("(%c)").to_string()),
        None => None,
    }
}

impl Timestamp {
    /// Whether this instant lies strictly before `other`.
    pub open spec fn before(self, other: Timestamp) -> bool {
        self.secs < other.secs || (self.secs == other.secs && self.nanos < other.nanos)
    }

    /// Nanoseconds since the epoch.
    pub open spec fn total_nanos(self) -> int {
        self.secs * 1_000_000_000 + self.nanos
    }

    /// The instant rounded to the nearest whole second, a half rounding up.
    pub open spec fn rounded_secs(self) -> int {
        self.secs + (self.nanos + 500_000_000) / 1_000_000_000
    }

    /// An instant from its two parts.
    pub fn new(secs: i64, nanos: u32) -> (t: Timestamp)
        ensures
            t.secs == secs,
            t.nanos == nanos,
    {
        Timestamp { secs, nanos }
    }

    /// Whether this instant lies strictly before `other`.
    pub fn is_before(&self, other: &Timestamp) -> (b: bool)
        ensures
            b == self.before(*other),
    {
        self.secs < other.secs || (self.secs == other.secs && self.nanos < other.nanos)
    }

    /// Rounds to the nearest whole second. `None` where the result does not
    /// fit the seconds' range.
    pub fn round_to_second(&self) -> (r: Option<Timestamp>)
        ensures
            match r {
                Some(t) => t.secs == self.rounded_secs() && t.nanos == 0,
                None => self.rounded_secs() > i64::MAX,
            },
    {
        let carry: i64 = ((self.nanos as u64 + 500_000_000) / 1_000_000_000) as i64;
        match self.secs.checked_add(carry) {
            Some(secs) => Some(Timestamp { secs, nanos: 0 }),
            None => None,
        }
    }

    /// The instant `seconds` later (earlier, if negative). `None` where the
    /// result does not fit the seconds' range.
    pub fn checked_add_seconds(&self, seconds: i64) -> (r: Option<Timestamp>)
        ensures
            match r {
                Some(t) => t.secs == self.secs + seconds && t.nanos == self.nanos,
                None => !(i64::MIN <= self.secs + seconds <= i64::MAX),
            },
    {
        match self.secs.checked_add(seconds) {
            Some(secs) => Some(Timestamp { secs, nanos: self.nanos }),
            None => None,
        }
    }

    /// The instant `hours` hours later. `None` where the result does not fit
    /// the seconds' range.
    pub fn checked_add_hours(&self, hours: i64) -> (r: Option<Timestamp>)
        ensures
            match r {
                Some(t) => t.secs == self.secs + hours * 3600 && t.nanos == self.nanos,
                None => !(i64::MIN <= self.secs + hours * 3600 <= i64::MAX),
            },
    {
        let total: i128 = self.secs as i128 + hours as i128 * 3600;
        if total < i64::MIN as i128 || total > i64::MAX as i128 {
            None
        } else {
            Some(Timestamp { secs: total as i64, nanos: self.nanos })
        }
    }

    /// The instant `days` days later. `None` where the result does not fit the
    /// seconds' range.
    pub fn checked_add_days(&self, days: i64) -> (r: Option<Timestamp>)
        ensures
            match r {
                Some(t) => t.secs == self.secs + days * 86400 && t.nanos == self.nanos,
                None => !(i64::MIN <= self.secs + days * 86400 <= i64::MAX),
            },
    {
        let total: i128 = self.secs as i128 + days as i128 * 86400;
        if total < i64::MIN as i128 || total > i64::MAX as i128 {
            None
        } else {
            Some(Timestamp { secs: total as i64, nanos: self.nanos })
        }
    }

    /// The RFC 3339 text of the instant in UTC, as it is stored. `None` where
    /// the instant is outside the range that can be printed.
    pub fn to_rfc3339(&self) -> (r: Option<String>)
        ensures
            r is Some <==> rfc3339_text(self.secs as int, self.nanos as int) is Some,
            r is Some ==> r->Some_0@ == rfc3339_text(self.secs as int, self.nanos as int)->Some_0,
    {
        format_rfc3339(self.secs, self.nanos)
    }

    /// The date and time in words, in brackets, for display.
    pub fn to_display(&self) -> (r: Option<String>)
        ensures
            r is Some <==> ctime_text(self.secs as int, self.nanos as int) is Some,
            r is Some ==> r->Some_0@ == ctime_text(self.secs as int, self.nanos as int)->Some_0,
    {
        format_ctime(self.secs, self.nanos)
    }

    /// Reads an instant from its RFC 3339 text. The error is the parser's own
    /// message.
    pub fn parse(s: &str) -> (r: Result<Timestamp, String>)
        ensures
            r is Ok <==> rfc3339_parse(s@) is Ok,
            r is Ok ==> r->Ok_0 == rfc3339_parse(s@)->Ok_0,
            r is Err ==> r->Err_0@ == rfc3339_parse(s@)->Err_0,
    {
        parse_rfc3339(s)
    }
}

/// What a stored expiry says at a given instant.
#[derive(Debug, Clone, Copy, PartialEq, Eq, Structural)]
pub enum Liveness {
    /// The expiry has not passed.
    Live,
    /// The expiry has passed: the record counts as absent.
    Expired,
    /// The expiry cannot be read.
    Corrupt,
}

/// Whether a record with the given expiry counts as present at `now`: it does
/// until its expiry has passed.
pub open spec fn is_live(expiry: Timestamp, now: Timestamp) -> bool {
    !expiry.before(now)
}

/// What the stored expiry text says at `now`.
pub open spec fn liveness(expiry_ts: Seq<char>, now: Timestamp) -> Liveness {
    match rfc3339_parse(expiry_ts) {
        Ok(expiry) => if is_live(expiry, now) {
            Liveness::Live
        } else {
            Liveness::Expired
        },
        Err(_) => Liveness::Corrupt,
    }
}

/// The one predicate of lazy expiry, on instants: `true` when `expiry` lies
/// in the past at `now`.
pub fn expired_at(expiry: &Timestamp, now: &Timestamp) -> (b: bool)
    ensures
        b == !is_live(*expiry, *now),
{
    expiry.is_before(now)
}

/// What the stored expiry text says at `now`.
pub fn liveness_at(expiry_ts: &str, now: &Timestamp) -> (l: Liveness)
    ensures
        l == liveness(expiry_ts@, *now),
{
    match parse_rfc3339(expiry_ts) {
        Ok(expiry) => if expired_at(&expiry, now) {
            Liveness::Expired
        } else {
            Liveness::Live
        },
        Err(_) => Liveness::Corrupt,
    }
}

/// Returns true if the expiry lies in the past, i.e. the resource has expired.
/// A text that cannot be read is a server error that carries the parser's
/// message.
pub fn has_expired(expiry_ts: &str, now: &Timestamp) -> (r: Result<bool, AppError>)
    ensures
        match r {
            Ok(b) => rfc3339_parse(expiry_ts@) is Ok && b == !is_live(
                rfc3339_parse(expiry_ts@)->Ok_0,
                *now,
            ),
            Err(e) => rfc3339_parse(expiry_ts@) is Err && e.status_code
                == StatusCode::INTERNAL_SERVER_ERROR && e.message@ == rfc3339_parse(
                expiry_ts@,
            )->Err_0,
        },
{
    match parse_rfc3339(expiry_ts) {
        Ok(expiry) => Ok(expired_at(&expiry, now)),
        Err(message) => Err(AppError::new500(message.as_str())),
    }
}

/// Once an expiry has passed it stays passed: time only moves a record from
/// live to expired.
pub proof fn lemma_expiry_is_final(expiry: Timestamp, now: Timestamp, later: Timestamp)
    requires
        !is_live(expiry, now),
        !later.before(now),
    ensures
        !is_live(expiry, later),
{
}

/// A record is live at the instant of its own expiry and at every instant
/// before it.
pub proof fn lemma_live_until_expiry(expiry: Timestamp, now: Timestamp)
    requires
        !expiry.before(now),
    ensures
        is_live(expiry, now),
        is_live(expiry, expiry),
{
}

} // verus!
