//! A span of time, broken down into calendar and clock units.
//!
//! The units are held as plain values. Rounding a span relative to the
//! present moment is done by the `jiff` datetime library through a trusted
//! bridge (its outcome depends on the clock, so nothing is promised of it);
//! the selection of which two units to keep for human display is the
//! library's own verified logic.

use vstd::prelude::*;
use vstd::string::StringExecFns;

verus! {

/// A span of time as calendar and clock units, each possibly zero.
#[derive(Clone, Copy, Debug, Default, Eq, Hash, PartialEq, Structural)]
pub struct Duration {
    pub years: i64,
    pub months: i64,
    pub days: i64,
    pub hours: i64,
    pub minutes: i64,
    pub seconds: i64,
}

/// What the friendly rendering of a span is: a function of the units alone,
/// and nothing when the units cannot form a span (out of range).
pub uninterp spec fn span_friendly_of(
    years: int,
    months: int,
    days: int,
    hours: int,
    minutes: int,
    seconds: int,
) -> Option<Seq<char>>;

/// Relies on `jiff::Span`'s alternate `Display` (the "friendly" format) over
/// a span rebuilt from the units with the `try_` setters: the output depends
/// on the units alone.
#[verifier::external_body]
fn span_friendly(d: &Duration) -> (r: Option<String>)
    ensures
        r matches Option::Some(s) ==> span_friendly_of(
            d.years as int,
            d.months as int,
            d.days as int,
            d.hours as int,
            d.minutes as int,
            d.seconds as int,
        ) == Option::Some(s@),
        r is None ==> span_friendly_of(
            d.years as int,
            d.months as int,
            d.days as int,
            d.hours as int,
            d.minutes as int,
            d.seconds as int,
        ) is None,
{
    let span = jiff::Span::new().try_years(d.years).ok()?.try_months(d.months).ok()?.try_days(
        d.days,
    ).ok()?.try_hours(d.hours).ok()?.try_minutes(d.minutes).ok()?.try_seconds(d.seconds).ok()?;
    Some(format!("{:#}", span))
}

#[verifier::external_type_specification]
#[verifier::external_body]
pub struct ExSpan(jiff::Span);

/// Relies on `jiff::Span`'s `try_` setters: a span from the plain units, or
/// nothing when a unit is out of its documented range.
#[verifier::external_body]
fn to_span(d: &Duration) -> (r: Option<jiff::Span>)
{
    let span = jiff::Span::new().try_years(d.years).ok()?.try_months(d.months).ok()?.try_days(
        d.days,
    ).ok()?.try_hours(d.hours).ok()?.try_minutes(d.minutes).ok()?.try_seconds(d.seconds).ok()?;
    Some(span)
}

/// Relies on `jiff::Span::round` with largest unit years, smallest unit
/// seconds, expanding, relative to `jiff::Zoned::now`: the outcome depends on
/// the clock, so nothing is promised of the units returned.
#[verifier::external_body]
fn round_span_now(span: jiff::Span) -> (r: Option<Duration>)
{
    let now = jiff::Zoned::now();
    let opts = jiff::SpanRound::new().largest(jiff::Unit::Year).smallest(jiff::Unit::Second).mode(
        jiff::RoundMode::Expand,
    ).relative(&now);
    let r = span.round(opts).ok()?;
    Some(Duration { years: r.get_years() as i64, months: r.get_months() as i64, days: r.get_days() as i64, hours: r.get_hours() as i64, minutes: r.get_minutes(), seconds: r.get_seconds() })
}

/// Rounds the units relative to the present moment, through the two bridges.
fn round_relative_now(d: &Duration) -> Option<Duration>
{
    match to_span(d) {
        Option::Some(span) => round_span_now(span),
        Option::None => Option::None,
    }
}

/// Relies on `jiff::Timestamp::since` over instants rebuilt from the plain
/// fields: the raw span from `earlier` to `later`, for rounding to rebalance.
/// Callers use only its shape, so nothing further is promised.
#[verifier::external_body]
pub(crate) fn since(later: &crate::datetime::DateTime, earlier: &crate::datetime::DateTime) -> (r:
    Option<Duration>)
{
    let lt = jiff::Timestamp::new(later.second, later.nanosecond).ok()?;
    let et = jiff::Timestamp::new(earlier.second, earlier.nanosecond).ok()?;
    let s = lt.since(et).ok()?;
    Some(Duration { years: 0, months: 0, days: 0, hours: s.get_hours() as i64, minutes: s.get_minutes(), seconds: s.get_seconds() })
}

/// Which units a rounded span keeps for human display: the largest non-zero
/// unit and the one below it, except that ten years or more stand alone.
pub open spec fn select_units_spec(d: Duration) -> Duration {
    if d.years >= 10 {
        Duration { years: d.years, months: 0, days: 0, hours: 0, minutes: 0, seconds: 0 }
    } else if d.years > 0 {
        Duration { years: d.years, months: d.months, days: 0, hours: 0, minutes: 0, seconds: 0 }
    } else if d.months > 0 {
        Duration { years: 0, months: d.months, days: d.days, hours: 0, minutes: 0, seconds: 0 }
    } else if d.days > 0 {
        Duration { years: 0, months: 0, days: d.days, hours: d.hours, minutes: 0, seconds: 0 }
    } else if d.hours > 0 {
        Duration { years: 0, months: 0, days: 0, hours: d.hours, minutes: d.minutes, seconds: 0 }
    } else if d.minutes > 0 {
        Duration { years: 0, months: 0, days: 0, hours: 0, minutes: d.minutes, seconds: d.seconds }
    } else if d.seconds > 0 {
        Duration { years: 0, months: 0, days: 0, hours: 0, minutes: 0, seconds: d.seconds }
    } else {
        Duration { years: 0, months: 0, days: 0, hours: 0, minutes: 0, seconds: 0 }
    }
}

impl Duration {
    /// The empty span.
    pub fn zero() -> (r: Duration)
        ensures
            r == (Duration { years: 0, months: 0, days: 0, hours: 0, minutes: 0, seconds: 0 }),
    {
        Duration { years: 0, months: 0, days: 0, hours: 0, minutes: 0, seconds: 0 }
    }

    /// Keeps only the units that human display wants, exactly as
    /// `select_units_spec` says: the largest non-zero unit and the one below
    /// it, except that ten years or more stand alone.
    pub fn truncated_for_display(&self) -> (r: Duration)
        ensures
            r == select_units_spec(*self),
    {
        let z = Duration::zero();
        if self.years >= 10 {
            Duration { years: self.years, ..z }
        } else if self.years > 0 {
            Duration { years: self.years, months: self.months, ..z }
        } else if self.months > 0 {
            Duration { months: self.months, days: self.days, ..z }
        } else if self.days > 0 {
            Duration { days: self.days, hours: self.hours, ..z }
        } else if self.hours > 0 {
            Duration { hours: self.hours, minutes: self.minutes, ..z }
        } else if self.minutes > 0 {
            Duration { minutes: self.minutes, seconds: self.seconds, ..z }
        } else if self.seconds > 0 {
            Duration { seconds: self.seconds, ..z }
        } else {
            z
        }
    }

    /// Rounds the span for display to humans, relative to the present moment:
    /// the span is rebalanced from years down to seconds, and only the units
    /// `select_units_spec` keeps remain. Fails when the units cannot form a
    /// span.
    pub fn round(&self) -> (r: Option<Duration>)
        ensures
            r matches Option::Some(d) ==> exists|m: Duration| d == select_units_spec(m),
    {
        match round_relative_now(self) {
            Option::Some(m) => {
                let d = m.truncated_for_display();
                proof {
                    assert(d == select_units_spec(m));
                }
                Option::Some(d)
            },
            Option::None => Option::None,
        }
    }

    /// The friendly text of the span, or empty where the units cannot form a
    /// span.
    pub fn to_string(&self) -> (r: String)
        ensures
            r@ == duration_display_spec(*self),
    {
        match span_friendly(self) {
            Option::Some(s) => s,
            Option::None => String::new(),
        }
    }
}

/// The friendly rendering of a span, or empty where the units cannot form
/// one.
pub open spec fn duration_display_spec(d: Duration) -> Seq<char> {
    match span_friendly_of(
        d.years as int,
        d.months as int,
        d.days as int,
        d.hours as int,
        d.minutes as int,
        d.seconds as int,
    ) {
        Option::Some(s) => s,
        Option::None => Seq::empty(),
    }
}

} // verus!
