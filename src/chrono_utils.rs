use vstd::prelude::*;

verus! {

/// An instant in UTC, as seconds since the Unix epoch and the nanoseconds
/// within that second. During a leap second `nanos` runs past one billion, so
/// instants are ordered by `secs` first and `nanos` second.
#[derive(Clone, Copy, Debug, PartialEq, Eq, Structural)]
pub struct Timestamp {
    pub secs: i64,
    pub nanos: u32,
}

/// `a` is at or before `b`.
pub open spec fn ts_le(a: Timestamp, b: Timestamp) -> bool {
    a.secs < b.secs || (a.secs == b.secs && a.nanos <= b.nanos)
}

/// `a` is strictly after `b`.
pub open spec fn ts_after(a: Timestamp, b: Timestamp) -> bool {
    !ts_le(a, b)
}

/// The later of two instants.
pub open spec fn ts_max(a: Timestamp, b: Timestamp) -> Timestamp {
    if ts_le(a, b) { b } else { a }
}

impl Timestamp {
    /// Whether `self` lies strictly after `other`.
    pub fn is_after(&self, other: &Timestamp) -> (r: bool)
        ensures
            r == ts_after(*self, *other),
    {
        self.secs > other.secs || (self.secs == other.secs && self.nanos > other.nanos)
    }

    /// The later of `self` and `other`.
    pub fn max(self, other: Timestamp) -> (r: Timestamp)
        ensures
            r == ts_max(self, other),
    {
        if other.is_after(&self) { other } else { self }
    }
}

} // verus!

verus! {

/// The instant, as `(seconds, nanoseconds)` since the Unix epoch, that
/// chrono's RFC 2822 parser reads from `s`, or `None` where it rejects `s`.
pub uninterp spec fn rfc2822_instant(s: Seq<char>) -> Option<(i64, u32)>;

/// The instant that chrono's RFC 3339 parser reads from `s`.
pub uninterp spec fn rfc3339_instant(s: Seq<char>) -> Option<(i64, u32)>;

/// The instant that chrono reads from `s` by the strftime-style pattern `fmt`,
/// taking the result as UTC.
pub uninterp spec fn pattern_instant(s: Seq<char>, fmt: Seq<char>) -> Option<(i64, u32)>;

/// Relies on chrono::DateTime::parse_from_rfc2822, converted to UTC.
#[verifier::external_body]
fn parse_rfc2822(s: &str) -> (r: Option<(i64, u32)>)
    ensures
        r == rfc2822_instant(s@),
{
    match chrono::DateTime::parse_from_rfc2822(s) {
        Ok(d) => Some((d.timestamp(), d.timestamp_subsec_nanos())),
        Err(_) => None,
    }
}

/// Relies on chrono::DateTime::parse_from_rfc3339, converted to UTC.
#[verifier::external_body]
fn parse_rfc3339(s: &str) -> (r: Option<(i64, u32)>)
    ensures
        r == rfc3339_instant(s@),
{
    match chrono::DateTime::parse_from_rfc3339(s) {
        Ok(d) => Some((d.timestamp(), d.timestamp_subsec_nanos())),
        Err(_) => None,
    }
}

/// Relies on chrono::NaiveDateTime::parse_from_str, read as UTC.
#[verifier::external_body]
fn parse_with_pattern(s: &str, fmt: &str) -> (r: Option<(i64, u32)>)
    ensures
        r == pattern_instant(s@, fmt@),
{
    match chrono::NaiveDateTime::parse_from_str(s, fmt) {
        Ok(d) => Some((d.and_utc().timestamp(), d.and_utc().timestamp_subsec_nanos())),
        Err(_) => None,
    }
}

/// Pattern of the first permissive fallback: `YYYY-MM-DD HH:MM:SS`.
pub const PLAIN_PATTERN: &'static str = "%Y-%m-%d %H:%M:%S";

/// Pattern of the second permissive fallback: the same with milliseconds.
pub const FRACTIONAL_PATTERN: &'static str = "%Y-%m-%d %H:%M:%S%.3f";

pub open spec fn as_timestamp(p: Option<(i64, u32)>) -> Option<Timestamp> {
    match p {
        Some((secs, nanos)) => Some(Timestamp { secs, nanos }),
        None => None,
    }
}

/// The instant that a publication date denotes: the first of RFC 2822,
/// RFC 3339 and the two fallback patterns that accepts it.
pub open spec fn datetime_of(s: Seq<char>) -> Option<Timestamp> {
    if rfc2822_instant(s) is Some {
        as_timestamp(rfc2822_instant(s))
    } else if rfc3339_instant(s) is Some {
        as_timestamp(rfc3339_instant(s))
    } else if pattern_instant(s, PLAIN_PATTERN@) is Some {
        as_timestamp(pattern_instant(s, PLAIN_PATTERN@))
    } else {
        as_timestamp(pattern_instant(s, FRACTIONAL_PATTERN@))
    }
}

/// Parses a publication date permissively; `None` where no format accepts it.
pub fn parse_datetime(s: &str) -> (r: Option<Timestamp>)
    ensures
        r == datetime_of(s@),
{
    let first = parse_rfc2822(s);
    if first.is_some() {
        return as_ts(first);
    }
    let second = parse_rfc3339(s);
    if second.is_some() {
        return as_ts(second);
    }
    let third = parse_with_pattern(s, PLAIN_PATTERN);
    if third.is_some() {
        return as_ts(third);
    }
    as_ts(parse_with_pattern(s, FRACTIONAL_PATTERN))
}

fn as_ts(p: Option<(i64, u32)>) -> (r: Option<Timestamp>)
    ensures
        r == as_timestamp(p),
{
    match p {
        Some((secs, nanos)) => Some(Timestamp { secs, nanos }),
        None => None,
    }
}

} // verus!
