//! Normalization of a parsed MIME message into a canonical email message.
//!
//! The input models what a MIME parser (an excluded collaborator) exposes:
//! a structured date broken into civil fields with a zone offset, address
//! lists that may be flat or grouped, and already-decoded text fields. The
//! canonical moment is built directly from the structured fields — verified
//! proleptic-Gregorian calendar arithmetic — rather than through a second
//! textual round trip.

use vstd::prelude::*;
use vstd::string::StringExecFns;

use crate::datetime::DateTime;
use crate::email_address::EmailAddress;
use crate::email_address_list::EmailAddressList;
use crate::email_message::EmailMessage;
use crate::email_message_id::EmailMessageId;
use crate::errors::AdapterError;
use crate::imap::{opt_id_view, opt_string_view};
use crate::text::lower_of;

verus! {

/// A structured civil date and time with a zone offset, as a MIME parser
/// hands it over.
#[derive(Clone, Copy, Debug, Default, Eq, Hash, Ord, PartialEq, PartialOrd, Structural)]
pub struct MimeDateTime {
    pub year: u16,
    pub month: u8,
    pub day: u8,
    pub hour: u8,
    pub minute: u8,
    pub second: u8,
    /// Whether the zone lies west of Greenwich in the source's convention.
    pub tz_before_gmt: bool,
    pub tz_hour: u8,
    pub tz_minute: u8,
}

/// One parsed mailbox: a display name and the address itself, each possibly
/// absent.
#[derive(Clone, Debug, Default, Eq, Hash, PartialEq, PartialOrd, Ord)]
pub struct MimeAddress {
    pub name: Option<String>,
    pub address: Option<String>,
}

/// A named group of mailboxes.
#[derive(Clone, Debug, Default, Eq, Hash, PartialEq, PartialOrd, Ord)]
pub struct MimeGroup {
    pub name: Option<String>,
    pub addresses: Vec<MimeAddress>,
}

/// An address header value: either a flat list or a list of groups.
#[derive(Clone, Debug, Eq, Hash, PartialEq, PartialOrd, Ord)]
pub enum MimeAddresses {
    List(Vec<MimeAddress>),
    Group(Vec<MimeGroup>),
}

/// A parsed MIME message, reduced to what normalization reads.
#[derive(Clone, Debug, Default, Eq, Hash, PartialEq, PartialOrd, Ord)]
pub struct MimeMessage {
    pub date: Option<MimeDateTime>,
    pub from: Option<MimeAddresses>,
    pub to: Option<MimeAddresses>,
    pub cc: Option<MimeAddresses>,
    pub subject: Option<String>,
    pub message_id: Option<String>,
    pub body_text: Option<String>,
}

/// A proleptic-Gregorian leap year.
pub open spec fn is_leap_year(y: int) -> bool {
    y % 4 == 0 && (y % 100 != 0 || y % 400 == 0)
}

/// The number of days of month `m` of year `y`.
pub open spec fn days_in_month(y: int, m: int) -> int {
    if m == 2 {
        if is_leap_year(y) {
            29
        } else {
            28
        }
    } else if m == 4 || m == 6 || m == 9 || m == 11 {
        30
    } else {
        31
    }
}

/// The number of days of year `y`.
pub open spec fn days_in_year(y: int) -> int {
    if is_leap_year(y) {
        366
    } else {
        365
    }
}

/// Days from 1970-01-01 to the first day of year `y` (zero at or before
/// 1970).
pub open spec fn days_before_year(y: int) -> int
    decreases y,
{
    if y <= 1970 {
        0
    } else {
        days_before_year(y - 1) + days_in_year(y - 1)
    }
}

/// Days from the first day of year `y` to the first day of its month `m`.
pub open spec fn days_before_month(y: int, m: int) -> int
    decreases m,
{
    if m <= 1 {
        0
    } else {
        days_before_month(y, m - 1) + days_in_month(y, m - 1)
    }
}

/// Days from 1970-01-01 to the civil date `y-m-d`.
pub open spec fn epoch_days(y: int, m: int, d: int) -> int {
    days_before_year(y) + days_before_month(y, m) + (d - 1)
}

/// Whether the structured fields form a date this library accepts: a real
/// civil date from 1970 through 9999 with in-range clock and offset fields.
pub open spec fn mime_date_valid(d: MimeDateTime) -> bool {
    &&& 1970 <= d.year <= 9999
    &&& 1 <= d.month <= 12
    &&& 1 <= d.day <= days_in_month(d.year as int, d.month as int)
    &&& d.hour < 24
    &&& d.minute < 60
    &&& d.second < 60
    &&& d.tz_hour < 24
    &&& d.tz_minute < 60
}

/// The zone offset of the structured date, in seconds: negative west of
/// Greenwich, positive east of it.
pub open spec fn mime_offset_seconds(d: MimeDateTime) -> int {
    (d.tz_hour * 3600 + d.tz_minute * 60) * (if d.tz_before_gmt {
        -1int
    } else {
        1int
    })
}

/// The UTC epoch second that the structured (local) fields denote.
pub open spec fn mime_epoch_second(d: MimeDateTime) -> int {
    epoch_days(d.year as int, d.month as int, d.day as int) * 86400 + d.hour * 3600 + d.minute
        * 60 + d.second - mime_offset_seconds(d)
}

/// What building a moment from structured fields returns: the denoted moment
/// where the fields are valid, and nothing otherwise.
pub open spec fn mime_datetime_spec(d: MimeDateTime) -> Option<DateTime> {
    if mime_date_valid(d) {
        Option::Some(
            DateTime {
                second: mime_epoch_second(d) as i64,
                nanosecond: 0,
                offset_seconds: mime_offset_seconds(d) as i32,
            },
        )
    } else {
        Option::None
    }
}

/// Days before a year never exceed 366 per year since 1970.
proof fn lemma_days_before_year_bound(y: int)
    requires
        1970 <= y,
    ensures
        0 <= days_before_year(y) <= 366 * (y - 1970),
    decreases y,
{
    if y > 1970 {
        lemma_days_before_year_bound(y - 1);
    }
}

/// Days before a month never exceed 31 per month.
proof fn lemma_days_before_month_bound(y: int, m: int)
    requires
        1 <= m <= 13,
    ensures
        0 <= days_before_month(y, m) <= 31 * (m - 1),
    decreases m,
{
    if m > 1 {
        lemma_days_before_month_bound(y, m - 1);
    }
}

fn leap_year(y: u16) -> (r: bool)
    ensures
        r == is_leap_year(y as int),
{
    y % 4 == 0 && (y % 100 != 0 || y % 400 == 0)
}

fn month_days(y: u16, m: u8) -> (r: u8)
    ensures
        r as int == days_in_month(y as int, m as int),
{
    if m == 2 {
        if leap_year(y) {
            29
        } else {
            28
        }
    } else if m == 4 || m == 6 || m == 9 || m == 11 {
        30
    } else {
        31
    }
}

impl DateTime {
    /// The moment a structured MIME date denotes, exactly as
    /// `mime_datetime_spec` says: verified calendar arithmetic from the
    /// civil fields, with the offset subtracted to reach UTC. Fails exactly
    /// when the fields do not form an accepted civil date.
    pub fn from_mime_datetime(d: &MimeDateTime) -> (r: Option<DateTime>)
        ensures
            r == mime_datetime_spec(*d),
    {
        if !(1970 <= d.year && d.year <= 9999 && 1 <= d.month && d.month <= 12 && d.hour < 24
            && d.minute < 60 && d.second < 60 && d.tz_hour < 24 && d.tz_minute < 60) {
            return Option::None;
        }
        if !(1 <= d.day && d.day <= month_days(d.year, d.month)) {
            return Option::None;
        }
        let mut days: i64 = 0;
        let mut yy: u16 = 1970;
        while yy < d.year
            invariant
                1970 <= yy <= d.year,
                d.year <= 9999,
                days == days_before_year(yy as int),
                0 <= days <= 366 * (yy - 1970),
            decreases d.year - yy,
        {
            if leap_year(yy) {
                days = days + 366;
            } else {
                days = days + 365;
            }
            yy = yy + 1;
        }
        let mut mm: u8 = 1;
        while mm < d.month
            invariant
                1 <= mm <= d.month,
                d.month <= 12,
                1970 <= d.year <= 9999,
                days == days_before_year(d.year as int) + days_before_month(
                    d.year as int,
                    mm as int,
                ),
                days_before_year(d.year as int) <= 366 * (d.year - 1970),
                0 <= days <= 366 * (d.year - 1970) + 31 * (mm - 1),
            decreases d.month - mm,
        {
            days = days + month_days(d.year, mm) as i64;
            mm = mm + 1;
        }
        proof {
            lemma_days_before_year_bound(d.year as int);
            lemma_days_before_month_bound(d.year as int, d.month as int);
        }
        let total_days: i64 = days + (d.day as i64 - 1);
        let offset: i32 = (d.tz_hour as i32 * 3600 + d.tz_minute as i32 * 60) * (
        if d.tz_before_gmt {
            -1
        } else {
            1
        });
        proof {
            assert(total_days <= 366 * 8029 + 31 * 11 + 30) by {
                lemma_days_before_year_bound(d.year as int);
                lemma_days_before_month_bound(d.year as int, d.month as int);
            }
            assert(total_days * 86400 <= 3_000_000 * 86400) by (nonlinear_arith)
                requires
                    0 <= total_days <= 3_000_000,
            ;
        }
        let second: i64 = total_days * 86400 + d.hour as i64 * 3600 + d.minute as i64 * 60
            + d.second as i64 - offset as i64;
        Option::Some(DateTime { second, nanosecond: 0, offset_seconds: offset })
    }
}

/// The canonical form of one mailbox: its address lower-cased, or nothing
/// when the mailbox has no address.
pub open spec fn mime_addr_spec(a: MimeAddress) -> Option<Seq<char>> {
    match a.address {
        Option::Some(s) => Option::Some(lower_of(s@)),
        Option::None => Option::None,
    }
}

/// The canonical addresses of a flat mailbox list, dropping mailboxes
/// without an address.
pub open spec fn mime_addr_list(s: Seq<MimeAddress>) -> Seq<Seq<char>>
    decreases s.len(),
{
    if s.len() == 0 {
        Seq::empty()
    } else {
        mime_addr_list(s.drop_last()) + (match mime_addr_spec(s.last()) {
            Option::Some(a) => seq![a],
            Option::None => Seq::empty(),
        })
    }
}

/// The canonical addresses of a group list: each group flattened in order.
pub open spec fn mime_group_list(gs: Seq<MimeGroup>) -> Seq<Seq<char>>
    decreases gs.len(),
{
    if gs.len() == 0 {
        Seq::empty()
    } else {
        mime_group_list(gs.drop_last()) + mime_addr_list(gs.last().addresses@)
    }
}

/// The canonical addresses of an address header value: a flat list or the
/// flattening of its groups.
pub open spec fn mime_addresses_spec(a: MimeAddresses) -> Seq<Seq<char>> {
    match a {
        MimeAddresses::List(l) => mime_addr_list(l@),
        MimeAddresses::Group(g) => mime_group_list(g@),
    }
}

/// The canonical addresses of an optional address header value.
pub open spec fn mime_opt_addresses(v: Option<MimeAddresses>) -> Seq<Seq<char>> {
    match v {
        Option::Some(a) => mime_addresses_spec(a),
        Option::None => Seq::empty(),
    }
}

/// What the mandatory date of a parsed message denotes, where present and
/// valid.
pub open spec fn mime_message_date(date: Option<MimeDateTime>) -> Option<DateTime> {
    match date {
        Option::Some(d) => mime_datetime_spec(d),
        Option::None => Option::None,
    }
}

impl EmailMessage {
    /// Normalizes a parsed MIME message into a canonical message.
    ///
    /// Succeeds exactly when the message carries a valid structured date.
    /// Address lists are best-effort: mailboxes without an address are
    /// dropped, groups are flattened. `sender`, `reply_to`, `bcc`,
    /// `in_reply_to` and `references` are never populated from this source.
    pub fn from_mime_message(msg: &MimeMessage) -> (r: Result<EmailMessage, AdapterError>)
        ensures
            r is Ok <==> mime_message_date(msg.date) is Some,
            match r {
                Ok(out) => {
                    &&& Option::Some(out.date) == mime_message_date(msg.date)
                    &&& out.from.deep_view() == mime_opt_addresses(msg.from)
                    &&& out.sender is None
                    &&& out.reply_to@.len() == 0
                    &&& out.to.deep_view() == mime_opt_addresses(msg.to)
                    &&& out.cc.deep_view() == mime_opt_addresses(msg.cc)
                    &&& out.bcc@.len() == 0
                    &&& opt_string_view(out.subject) == opt_string_view(msg.subject)
                    &&& opt_id_view(out.id) == opt_string_view(msg.message_id)
                    &&& out.in_reply_to@.len() == 0
                    &&& out.references@.len() == 0
                    &&& opt_string_view(out.body) == opt_string_view(msg.body_text)
                },
                Err(e) => {
                    &&& (e == AdapterError::MissingDate <==> msg.date is None)
                    &&& (e == AdapterError::InvalidDate <==> msg.date is Some)
                },
            },
    {
        let date = match &msg.date {
            Option::None => {
                return Err(AdapterError::MissingDate);
            },
            Option::Some(d) => match DateTime::from_mime_datetime(d) {
                Option::Some(dt) => dt,
                Option::None => {
                    return Err(AdapterError::InvalidDate);
                },
            },
        };
        let from = match &msg.from {
            Option::Some(a) => EmailAddressList::from_addresses(a).into_vec(),
            Option::None => Vec::new(),
        };
        let to = match &msg.to {
            Option::Some(a) => EmailAddressList::from_addresses(a).into_vec(),
            Option::None => Vec::new(),
        };
        let cc = match &msg.cc {
            Option::Some(a) => EmailAddressList::from_addresses(a).into_vec(),
            Option::None => Vec::new(),
        };
        let id = match &msg.message_id {
            Option::Some(s) => Option::Some(EmailMessageId::new(s.clone())),
            Option::None => Option::None,
        };
        let subject = match &msg.subject {
            Option::Some(s) => Option::Some(s.clone()),
            Option::None => Option::None,
        };
        let body = match &msg.body_text {
            Option::Some(s) => Option::Some(s.clone()),
            Option::None => Option::None,
        };
        Ok(
            EmailMessage {
                date,
                from,
                sender: Option::None,
                reply_to: Vec::new(),
                to,
                cc,
                bcc: Vec::new(),
                subject,
                id,
                in_reply_to: Vec::new(),
                references: Vec::new(),
                body,
            },
        )
    }
}

} // verus!
