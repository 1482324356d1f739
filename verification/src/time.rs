//! Instants on the UTC time line, as whole seconds since the Unix epoch plus
//! nanoseconds, with parsing, formatting and subtraction done by `chrono`.

use std::fmt::Write;
use vstd::prelude::*;

verus! {

/// Whether `chrono` has a `DateTime<Utc>` for this count of seconds since the
/// Unix epoch and this nanosecond part.
pub uninterp spec fn datetime_exists(secs: int, nanos: int) -> bool;

/// The instant that `chrono` reads from an RFC 3339 text, as seconds since
/// the Unix epoch and nanoseconds; `None` where it rejects the text.
pub uninterp spec fn rfc3339_instant(text: Seq<char>) -> Option<(int, int)>;

/// The RFC 3339 text that `chrono` writes for an instant.
pub uninterp spec fn rfc3339_text(secs: int, nanos: int) -> Seq<char>;

/// The text that `chrono` writes for an instant under a `strftime` pattern;
/// `None` where it has no such instant or cannot format it with the pattern.
pub uninterp spec fn strftime_text(secs: int, nanos: int, pattern: Seq<char>) -> Option<
    Seq<char>,
>;

/// The whole seconds that `chrono` counts from the second instant to the
/// first.
pub uninterp spec fn elapsed_seconds(secs: int, nanos: int, from_secs: int, from_nanos: int) -> int;

/// The whole seconds between two instants, rounded toward zero.
pub open spec fn whole_seconds_between(
    secs: int,
    nanos: int,
    from_secs: int,
    from_nanos: int,
) -> int {
    let diff = (secs - from_secs) * 1_000_000_000 + (nanos - from_nanos);
    if diff >= 0 {
        diff / 1_000_000_000
    } else {
        -((-diff) / 1_000_000_000)
    }
}

/// A pattern made of literal text and of the specifiers `%b`, `%d`, `%Y`,
/// `%H` and `%M` only.
pub open spec fn simple_pattern(pattern: Seq<char>) -> bool {
    forall|i: int|
        0 <= i < pattern.len() && #[trigger] pattern[i] == '%' ==> i + 1 < pattern.len() && (
        pattern[i + 1] == 'b' || pattern[i + 1] == 'd' || pattern[i + 1] == 'Y' || pattern[i + 1]
            == 'H' || pattern[i + 1] == 'M')
}

/// Asks `chrono::DateTime::from_timestamp` whether it accepts the pair. It
/// returns `None` for seconds out of its range and for an invalid nanosecond
/// part.
#[verifier::external_body]
fn chrono_exists(secs: i64, nanos: u32) -> (b: bool)
    ensures
        b == datetime_exists(secs as int, nanos as int),
{
    chrono::DateTime::from_timestamp(secs, nanos).is_some()
}

/// Reads `chrono::DateTime::UNIX_EPOCH` back as seconds and nanoseconds: the
/// epoch is second zero, and `chrono` has a `DateTime` for it.
#[verifier::external_body]
fn chrono_epoch() -> (r: (i64, u32))
    ensures
        r.0 == 0 && r.1 == 0,
        datetime_exists(r.0 as int, r.1 as int),
{
    let epoch = chrono::DateTime::UNIX_EPOCH;
    (epoch.timestamp(), epoch.timestamp_subsec_nanos())
}

/// Parses with `chrono::DateTime::parse_from_rfc3339` and reads the result
/// with `timestamp` and `timestamp_subsec_nanos`; `from_timestamp` is
/// documented to round-trip with these two, so the pair it hands back exists.
#[verifier::external_body]
fn chrono_parse_rfc3339(text: &str) -> (r: Option<(i64, u32)>)
    ensures
        r is Some <==> rfc3339_instant(text@) is Some,
        r matches Some(p) ==> rfc3339_instant(text@) == Some((p.0 as int, p.1 as int))
            && datetime_exists(p.0 as int, p.1 as int),
{
    let parsed = chrono::DateTime::parse_from_rfc3339(text).ok()?;
    Some((parsed.timestamp(), parsed.timestamp_subsec_nanos()))
}

/// Writes the instant with `chrono::DateTime::to_rfc3339`.
#[verifier::external_body]
fn chrono_to_rfc3339(secs: i64, nanos: u32) -> (r: String)
    requires
        datetime_exists(secs as int, nanos as int),
    ensures
        r@ == rfc3339_text(secs as int, nanos as int),
{
    chrono::DateTime::from_timestamp(secs, nanos).map(|t| t.to_rfc3339()).unwrap_or_default()
}

/// Writes the instant with `chrono::DateTime::format`. The specifiers `%b`,
/// `%d`, `%Y`, `%H` and `%M` are among those `chrono` documents, and a
/// `DateTime` has every field they read, so a pattern of these and literal
/// text formats every existing instant.
#[verifier::external_body]
fn chrono_format(secs: i64, nanos: u32, pattern: &str) -> (r: Option<String>)
    ensures
        r is Some <==> strftime_text(secs as int, nanos as int, pattern@) is Some,
        r matches Some(s) ==> strftime_text(secs as int, nanos as int, pattern@) == Some(s@),
        datetime_exists(secs as int, nanos as int) && simple_pattern(pattern@) ==> r is Some,
{
    let instant = chrono::DateTime::from_timestamp(secs, nanos)?;
    let mut out = String::new();
    write!(out, "{}", instant.format(pattern)).ok()?;
    Some(out)
}

/// Subtracts with `chrono::DateTime::signed_duration_since` and reads the
/// difference with `TimeDelta::num_seconds`. Away from leap seconds (both
/// nanosecond parts below one second) the subtraction is exact and
/// `num_seconds` drops the fraction toward zero.
#[verifier::external_body]
fn chrono_elapsed(secs: i64, nanos: u32, from_secs: i64, from_nanos: u32) -> (r: i64)
    requires
        datetime_exists(secs as int, nanos as int),
        datetime_exists(from_secs as int, from_nanos as int),
    ensures
        r == elapsed_seconds(secs as int, nanos as int, from_secs as int, from_nanos as int),
        nanos < 1_000_000_000 && from_nanos < 1_000_000_000 ==> r == whole_seconds_between(
            secs as int,
            nanos as int,
            from_secs as int,
            from_nanos as int,
        ),
{
    let later = chrono::DateTime::from_timestamp(secs, nanos).unwrap_or_default();
    let earlier = chrono::DateTime::from_timestamp(from_secs, from_nanos).unwrap_or_default();
    later.signed_duration_since(earlier).num_seconds()
}

/// An instant that `chrono` can represent.
#[derive(Clone, Copy, Debug, PartialEq, Eq, Structural)]
pub struct Timestamp {
    secs: i64,
    nanos: u32,
}

impl View for Timestamp {
    type V = (int, int);

    /// Seconds since the Unix epoch, and the nanosecond part.
    closed spec fn view(&self) -> (int, int) {
        (self.secs as int, self.nanos as int)
    }
}

impl Timestamp {
    #[verifier::type_invariant]
    spec fn representable(self) -> bool {
        datetime_exists(self.secs as int, self.nanos as int)
    }

    /// The instant `secs` seconds after the Unix epoch plus `nanos`
    /// nanoseconds, where `chrono` has one.
    pub fn from_unix(secs: i64, nanos: u32) -> (r: Option<Timestamp>)
        ensures
            r is Some <==> datetime_exists(secs as int, nanos as int),
            r matches Some(t) ==> t@ == (secs as int, nanos as int),
    {
        if chrono_exists(secs, nanos) {
            Some(Timestamp { secs, nanos })
        } else {
            None
        }
    }

    /// The Unix epoch, 1970-01-01 00:00:00 UTC.
    pub fn epoch() -> (r: Timestamp)
        ensures
            r@ == (0int, 0int),
    {
        let (secs, nanos) = chrono_epoch();
        Timestamp { secs, nanos }
    }

    /// Reads an RFC 3339 date and time.
    pub fn parse_rfc3339(text: &str) -> (r: Option<Timestamp>)
        ensures
            r is Some <==> rfc3339_instant(text@) is Some,
            r matches Some(t) ==> rfc3339_instant(text@) == Some(t@),
    {
        match chrono_parse_rfc3339(text) {
            Some((secs, nanos)) => Some(Timestamp { secs, nanos }),
            None => None,
        }
    }

    /// Seconds since the Unix epoch.
    pub fn unix_seconds(&self) -> (r: i64)
        ensures
            r == self@.0,
    {
        self.secs
    }

    /// The nanosecond part.
    pub fn subsec_nanos(&self) -> (r: u32)
        ensures
            r == self@.1,
    {
        self.nanos
    }

    /// The instant as RFC 3339 text.
    pub fn to_rfc3339(&self) -> (r: String)
        ensures
            r@ == rfc3339_text(self@.0, self@.1),
    {
        proof {
            use_type_invariant(self);
        }
        chrono_to_rfc3339(self.secs, self.nanos)
    }

    /// The instant written under a `strftime` pattern, where `chrono` can
    /// format it; it can for every pattern that is a `simple_pattern`.
    pub fn format(&self, pattern: &str) -> (r: Option<String>)
        ensures
            r is Some <==> strftime_text(self@.0, self@.1, pattern@) is Some,
            r matches Some(s) ==> strftime_text(self@.0, self@.1, pattern@) == Some(s@),
            simple_pattern(pattern@) ==> r is Some,
    {
        proof {
            use_type_invariant(self);
        }
        chrono_format(self.secs, self.nanos, pattern)
    }

    /// Whole seconds from `earlier` to `self`, negative where `self` comes
    /// first.
    pub fn seconds_since(&self, earlier: &Timestamp) -> (r: i64)
        ensures
            r == elapsed_seconds(self@.0, self@.1, earlier@.0, earlier@.1),
            self@.1 < 1_000_000_000 && earlier@.1 < 1_000_000_000 ==> r == whole_seconds_between(
                self@.0,
                self@.1,
                earlier@.0,
                earlier@.1,
            ),
    {
        proof {
            use_type_invariant(self);
            use_type_invariant(earlier);
        }
        chrono_elapsed(self.secs, self.nanos, earlier.secs, earlier.nanos)
    }
}

} // verus!
