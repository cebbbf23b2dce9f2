//! A single moment in time with an attached zone offset.
//!
//! The moment is held as plain values: seconds and subsecond nanoseconds
//! since the Unix epoch, plus the offset in seconds. Textual forms (ISO 8601
//! and RFC 2822) come from the `jiff` datetime library through trusted
//! bridges; each form is a pure function of the moment, so each carries a
//! name that the contracts share.

use vstd::prelude::*;
use vstd::string::StringExecFns;

use crate::errors::FormatError;
use crate::formatters::{DisplayInline, DisplayMime};

verus! {

/// A single moment with an attached zone offset (not only UTC).
///
/// All display forms are derivable functions of the same underlying value.
#[derive(Clone, Copy, Debug, Default, Eq, Hash, Ord, PartialEq, PartialOrd, Structural)]
pub struct DateTime {
    /// Whole seconds since the Unix epoch.
    pub second: i64,
    /// Subsecond nanoseconds, magnitude below one billion.
    pub nanosecond: i32,
    /// The zone offset from UTC, in seconds.
    pub offset_seconds: i32,
}

/// What `jiff::fmt::strtime::format` returns for a format string and a
/// fixed-offset moment: a function of the format and the moment alone, and
/// nothing when the moment cannot be represented or the format is invalid.
pub uninterp spec fn strftime_of(
    fmt: Seq<char>,
    second: int,
    nanosecond: int,
    offset_seconds: int,
) -> Option<Seq<char>>;

/// What RFC 2822 parsing returns for a piece of text: the moment and offset
/// it denotes, or nothing when the text is not an RFC 2822 datetime.
pub uninterp spec fn rfc2822_of(s: Seq<char>) -> Option<DateTime>;

/// What ISO 8601 parsing (`%FT%T.%3f%:z`) returns for a piece of text.
pub uninterp spec fn iso_of(s: Seq<char>) -> Option<DateTime>;

/// What RFC 2822 printing returns for a moment: a function of the moment
/// alone, and nothing when the moment cannot be represented (such as a year
/// outside `1..=9999`).
pub uninterp spec fn rfc2822_string_of(
    second: int,
    nanosecond: int,
    offset_seconds: int,
) -> Option<Seq<char>>;

/// Relies on `jiff::fmt::rfc2822::parse`: parses RFC 2822 datetime text into
/// an instant with its zone offset; the result depends on the text alone.
#[verifier::external_body]
pub(crate) fn rfc2822_parse(s: &str) -> (r: Option<DateTime>)
    ensures
        r == rfc2822_of(s@),
{
    jiff::fmt::rfc2822::parse(s).ok().map(|z| DateTime {
        second: z.timestamp().as_second(),
        nanosecond: z.timestamp().subsec_nanosecond(),
        offset_seconds: z.offset().seconds(),
    })
}

/// Relies on `jiff::Zoned::strptime` with the ISO 8601 format
/// `%FT%T.%3f%:z`: the result depends on the text alone.
#[verifier::external_body]
fn iso_parse(s: &str) -> (r: Option<DateTime>)
    ensures
        r == iso_of(s@),
{
    jiff::Zoned::strptime("%FT%T.%3f%:z", s).ok().map(|z| DateTime {
        second: z.timestamp().as_second(),
        nanosecond: z.timestamp().subsec_nanosecond(),
        offset_seconds: z.offset().seconds(),
    })
}

/// Relies on `jiff::fmt::strtime::format` over a fixed-offset `jiff::Zoned`
/// rebuilt from the plain fields (via `jiff::Timestamp::new` and
/// `jiff::tz::Offset::from_seconds`): the output depends on the format and
/// the moment alone, never on a time zone database, locale or clock.
#[verifier::external_body]
fn strftime(fmt: &str, dt: &DateTime) -> (r: Option<String>)
    ensures
        r matches Option::Some(s) ==> strftime_of(
            fmt@,
            dt.second as int,
            dt.nanosecond as int,
            dt.offset_seconds as int,
        ) == Option::Some(s@),
        r is None ==> strftime_of(
            fmt@,
            dt.second as int,
            dt.nanosecond as int,
            dt.offset_seconds as int,
        ) is None,
{
    let off = jiff::tz::Offset::from_seconds(dt.offset_seconds).ok()?;
    let ts = jiff::Timestamp::new(dt.second, dt.nanosecond).ok()?;
    let z = jiff::Zoned::new(ts, jiff::tz::TimeZone::fixed(off));
    jiff::fmt::strtime::format(fmt, &z).ok()
}

/// Relies on `jiff::fmt::rfc2822::to_string` over a fixed-offset
/// `jiff::Zoned` rebuilt from the plain fields: the output depends on the
/// moment alone.
#[verifier::external_body]
fn rfc2822_print(dt: &DateTime) -> (r: Option<String>)
    ensures
        r matches Option::Some(s) ==> rfc2822_string_of(
            dt.second as int,
            dt.nanosecond as int,
            dt.offset_seconds as int,
        ) == Option::Some(s@),
        r is None ==> rfc2822_string_of(
            dt.second as int,
            dt.nanosecond as int,
            dt.offset_seconds as int,
        ) is None,
{
    let off = jiff::tz::Offset::from_seconds(dt.offset_seconds).ok()?;
    let ts = jiff::Timestamp::new(dt.second, dt.nanosecond).ok()?;
    let z = jiff::Zoned::new(ts, jiff::tz::TimeZone::fixed(off));
    jiff::fmt::rfc2822::to_string(&z).ok()
}

/// The ISO 8601 rendering of a moment (`%FT%T.%3f%:z`), or empty where the
/// moment cannot be represented.
pub open spec fn iso_display_spec(dt: DateTime) -> Seq<char> {
    match strftime_of(
        "%FT%T.%3f%:z"@,
        dt.second as int,
        dt.nanosecond as int,
        dt.offset_seconds as int,
    ) {
        Option::Some(s) => s,
        Option::None => Seq::empty(),
    }
}

/// The single-line rendering of a moment: a calendar glyph and
/// `%Y-%m-%d %H:%M:%S (%:z)`.
pub open spec fn datetime_inline_spec(dt: DateTime) -> Seq<char> {
    "📅 "@ + (match strftime_of(
        "%Y-%m-%d %H:%M:%S (%:z)"@,
        dt.second as int,
        dt.nanosecond as int,
        dt.offset_seconds as int,
    ) {
        Option::Some(s) => s,
        Option::None => Seq::empty(),
    })
}

/// The RFC 2822 rendering of a moment, or empty where it cannot be
/// represented.
pub open spec fn datetime_mime_spec(dt: DateTime) -> Seq<char> {
    match rfc2822_string_of(dt.second as int, dt.nanosecond as int, dt.offset_seconds as int) {
        Option::Some(s) => s,
        Option::None => Seq::empty(),
    }
}

impl DateTime {
    /// A moment from plain epoch fields, taken as given.
    pub fn from_fields(second: i64, nanosecond: i32, offset_seconds: i32) -> (r: DateTime)
        ensures
            r == (DateTime { second, nanosecond, offset_seconds }),
    {
        DateTime { second, nanosecond, offset_seconds }
    }

    /// A moment a whole number of seconds since the Unix epoch, in UTC.
    pub fn from_unix_second(second: i64) -> (r: DateTime)
        ensures
            r == (DateTime { second, nanosecond: 0, offset_seconds: 0 }),
    {
        DateTime { second, nanosecond: 0, offset_seconds: 0 }
    }

    /// Relies on `jiff::Zoned::now`: the present moment in the system's zone.
    /// Nothing is promised of the value returned.
    #[verifier::external_body]
    pub fn now() -> DateTime {
        let z = jiff::Zoned::now();
        DateTime {
            second: z.timestamp().as_second(),
            nanosecond: z.timestamp().subsec_nanosecond(),
            offset_seconds: z.offset().seconds(),
        }
    }

    /// Parses an ISO 8601 moment, as the `to_string` view prints it.
    /// Fails exactly on text that is not such a moment.
    pub fn parse(input: &str) -> (r: Result<DateTime, FormatError>)
        ensures
            match r {
                Ok(dt) => iso_of(input@) == Option::Some(dt),
                Err(e) => iso_of(input@) is None && e == FormatError::InvalidDate,
            },
    {
        match iso_parse(input) {
            Option::Some(dt) => Ok(dt),
            Option::None => Err(FormatError::InvalidDate),
        }
    }

    /// Parses an RFC 2822 moment, as found in mail headers.
    /// Fails exactly on text that is not such a moment.
    pub fn parse_rfc2822(input: &str) -> (r: Result<DateTime, FormatError>)
        ensures
            match r {
                Ok(dt) => rfc2822_of(input@) == Option::Some(dt),
                Err(e) => rfc2822_of(input@) is None && e == FormatError::InvalidDate,
            },
    {
        match rfc2822_parse(input) {
            Option::Some(dt) => Ok(dt),
            Option::None => Err(FormatError::InvalidDate),
        }
    }

    /// The ISO 8601 text of the moment.
    pub fn to_string(&self) -> (r: String)
        ensures
            r@ == iso_display_spec(*self),
    {
        match strftime("%FT%T.%3f%:z", self) {
            Option::Some(s) => s,
            Option::None => String::new(),
        }
    }

    /// The single-line view of the moment.
    pub fn inline(&self) -> (r: DisplayInline<'_, DateTime>)
        ensures
            r.0 == self,
    {
        DisplayInline(self)
    }

    /// The RFC 2822 view of the moment.
    pub fn mime(&self) -> (r: DisplayMime<'_, DateTime>)
        ensures
            r.0 == self,
    {
        DisplayMime(self)
    }
}

impl<'a> DisplayInline<'a, DateTime> {
    /// Renders the view to its string form.
    pub fn to_string(&self) -> (r: String)
        ensures
            r@ == datetime_inline_spec(*self.0),
    {
        let mut out = String::from_str("📅 ");
        match strftime("%Y-%m-%d %H:%M:%S (%:z)", self.0) {
            Option::Some(s) => {
                out.append(s.as_str());
            },
            Option::None => {},
        }
        proof {
            assert(out@ =~= datetime_inline_spec(*self.0));
        }
        out
    }
}

impl<'a> DisplayMime<'a, DateTime> {
    /// Renders the view to its string form.
    pub fn to_string(&self) -> (r: String)
        ensures
            r@ == datetime_mime_spec(*self.0),
    {
        match rfc2822_print(self.0) {
            Option::Some(s) => s,
            Option::None => String::new(),
        }
    }
}

} // verus!
