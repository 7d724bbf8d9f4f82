//! Points in time and lengths of time, counted in whole nanoseconds.
use time::format_description::well_known::Rfc3339;
use time::OffsetDateTime;
use vstd::prelude::*;

verus! {

pub const NANOS_PER_MILLI: u128 = 1_000_000;

pub const NANOS_PER_SEC: u128 = 1_000_000_000;

/// The first instant of year 0 in nanoseconds since the Unix epoch.
pub const YEAR_ZERO: i128 = -62_167_219_200_000_000_000;

/// The first instant of year 10000 in nanoseconds since the Unix epoch.
pub const YEAR_TEN_THOUSAND: i128 = 253_402_300_800_000_000_000;

/// A length of time.
#[derive(Clone, Copy, Debug, PartialEq, Eq, Structural)]
pub struct Span {
    pub nanos: u128,
}

impl Span {
    pub fn from_millis(millis: u64) -> (span: Span)
        ensures
            span.nanos == millis * NANOS_PER_MILLI,
    {
        Span { nanos: millis as u128 * NANOS_PER_MILLI }
    }

    pub fn from_secs(secs: u64) -> (span: Span)
        ensures
            span.nanos == secs * NANOS_PER_SEC,
    {
        Span { nanos: secs as u128 * NANOS_PER_SEC }
    }

    /// The whole milliseconds in the span.
    pub fn as_millis(self) -> (millis: u128)
        ensures
            millis == self.nanos / NANOS_PER_MILLI,
    {
        self.nanos / NANOS_PER_MILLI
    }

    /// The whole seconds in the span.
    pub fn as_secs(self) -> (secs: u128)
        ensures
            secs == self.nanos / NANOS_PER_SEC,
    {
        self.nanos / NANOS_PER_SEC
    }

    /// What is left of the span once `other` has passed.
    pub open spec fn minus(self, other: Span) -> Span {
        if self.nanos <= other.nanos {
            Span { nanos: 0 }
        } else {
            Span { nanos: (self.nanos - other.nanos) as u128 }
        }
    }

    /// What is left of the span once `other` has passed.
    pub fn saturating_sub(self, other: Span) -> (rest: Span)
        ensures
            rest == self.minus(other),
    {
        Span { nanos: self.nanos.saturating_sub(other.nanos) }
    }
}

/// A point in time, as nanoseconds since the Unix epoch.
#[derive(Clone, Copy, Debug, PartialEq, Eq, Structural)]
pub struct Timestamp {
    pub unix_nanos: i128,
}

impl Timestamp {
    /// The time from `earlier` to `self`, which is zero where `earlier` is not before `self`.
    pub open spec fn since(self, earlier: Timestamp) -> Span {
        if self.unix_nanos <= earlier.unix_nanos {
            Span { nanos: 0 }
        } else {
            Span { nanos: (self.unix_nanos - earlier.unix_nanos) as u128 }
        }
    }

    /// The time from `earlier` to `self`, which is zero where `earlier` is not before `self`.
    pub fn elapsed_since(self, earlier: Timestamp) -> (span: Span)
        ensures
            span == self.since(earlier),
    {
        let (to, from): (i128, i128) = (self.unix_nanos, earlier.unix_nanos);
        if to <= from {
            Span { nanos: 0 }
        } else if from >= 0 || to < 0 {
            Span { nanos: (to - from) as u128 }
        } else {
            Span { nanos: to as u128 + (-(from + 1)) as u128 + 1 }
        }
    }
}

/// The text of a UTC instant in the format of RFC 3339, where the `time` crate can write it.
pub uninterp spec fn rfc3339_text(unix_nanos: i128) -> Option<Seq<char>>;

/// Whether `text` is that of an instant: there is one exactly in the years 0 to 9999.
pub open spec fn is_rfc3339(text: Option<String>, timestamp: Timestamp) -> bool {
    &&& text is Some <==> YEAR_ZERO <= timestamp.unix_nanos < YEAR_TEN_THOUSAND
    &&& match text {
        Some(text) => rfc3339_text(timestamp.unix_nanos) == Some(text@),
        None => rfc3339_text(timestamp.unix_nanos) is None,
    }
}

/// Reads the clock with `time::OffsetDateTime::now_utc`. Nothing is claimed of what it shows.
#[verifier::external_body]
pub(crate) fn now_utc() -> (now: Timestamp)
{
    Timestamp { unix_nanos: OffsetDateTime::now_utc().unix_timestamp_nanos() }
}

/// Writes an instant with `time::OffsetDateTime::format` and `Rfc3339`.
///
/// The text is a function of the instant alone, and there is one exactly for the instants of the
/// years 0 to 9999.
#[verifier::external_body]
pub(crate) fn rfc3339(timestamp: Timestamp) -> (text: Option<String>)
    ensures
        text is Some <==> rfc3339_text(timestamp.unix_nanos) is Some,
        text is Some ==> rfc3339_text(timestamp.unix_nanos) == Some(text->0@),
        text is Some <==> YEAR_ZERO <= timestamp.unix_nanos < YEAR_TEN_THOUSAND,
{
    let instant = OffsetDateTime::from_unix_timestamp_nanos(timestamp.unix_nanos).ok()?;
    instant.format(&Rfc3339).ok()
}

/// A length of time counts a million nanoseconds for each millisecond and a thousand million for
/// each second.
pub proof fn law_spans_count_nanoseconds(count: u64, millis: Span, secs: Span)
    requires
        call_ensures(Span::from_millis, (count,), millis),
        call_ensures(Span::from_secs, (count,), secs),
    ensures
        millis.nanos == count * 1_000_000,
        secs.nanos == count * 1_000_000_000,
{
}

/// The whole milliseconds and seconds of a length of time are as many as fit into it.
pub proof fn law_whole_units_fit_into_a_span(span: Span, millis: u128, secs: u128)
    requires
        call_ensures(Span::as_millis, (span,), millis),
        call_ensures(Span::as_secs, (span,), secs),
    ensures
        millis * 1_000_000 <= span.nanos < (millis + 1) * 1_000_000,
        secs * 1_000_000_000 <= span.nanos < (secs + 1) * 1_000_000_000,
{
}

/// What has passed of a length of time and what is left of it make it up; once more has passed,
/// nothing is left.
pub proof fn law_rest_makes_up_the_span(span: Span, passed: Span, rest: Span)
    requires
        call_ensures(Span::saturating_sub, (span, passed), rest),
    ensures
        passed.nanos <= span.nanos ==> passed.nanos + rest.nanos == span.nanos,
        passed.nanos >= span.nanos ==> rest.nanos == 0,
{
}

/// The time that has passed leads from the earlier point in time to the later one; none has passed
/// the other way round.
pub proof fn law_passed_time_leads_to_the_later(earlier: Timestamp, later: Timestamp, passed: Span)
    requires
        call_ensures(Timestamp::elapsed_since, (later, earlier), passed),
    ensures
        earlier.unix_nanos <= later.unix_nanos ==> earlier.unix_nanos + passed.nanos
            == later.unix_nanos,
        earlier.unix_nanos >= later.unix_nanos ==> passed.nanos == 0,
{
}

/// Times are written for ten thousand years, from 719,528 days before the Unix epoch on, of which
/// every four hundred have 146,097 days.
pub proof fn law_ten_thousand_years_can_be_written(text: Option<String>, timestamp: Timestamp)
    requires
        is_rfc3339(text, timestamp),
    ensures
        ({
            let day = 86_400int * 1_000_000_000;
            text is Some <==> 0 <= timestamp.unix_nanos + 719_528 * day < 25 * 146_097 * day
        }),
        text is Some ==> rfc3339_text(timestamp.unix_nanos) == Some(text->0@),
{
}

} // verus!
