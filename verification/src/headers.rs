//! Normalization of a raw ordered header list into a canonical email message.
//!
//! The input models what a header-block parser (an excluded collaborator)
//! hands over: an ordered list of name/value pairs with already-decoded
//! values. Names are matched case-insensitively (ASCII). A maildir entry is
//! normalized in two stages: its header block is read and parsed outside the
//! library, and the resulting list goes through this adapter.

use vstd::prelude::*;
use vstd::string::{StrSliceExecFns, StringExecFns};

use crate::datetime::{rfc2822_of, rfc2822_parse, DateTime};
use crate::email_address::{parse_email_spec, EmailAddress};
use crate::email_message::EmailMessage;
use crate::email_message_id::{parse_message_id_spec, EmailMessageId};
use crate::errors::AdapterError;
use crate::imap::{opt_addr_view, opt_id_view, opt_string_view};

verus! {

/// One raw header: a field name and its already-decoded value.
#[derive(Clone, Debug, Default, Eq, Hash, PartialEq, PartialOrd, Ord)]
pub struct Header {
    pub name: String,
    pub value: String,
}

/// ASCII lower-casing of one scalar value.
pub open spec fn lower_u32(u: u32) -> u32 {
    if 0x41 <= u && u <= 0x5A {
        (u + 0x20) as u32
    } else {
        u
    }
}

/// Case-insensitive (ASCII) equality of two names.
pub open spec fn eq_ignore_ascii_case(a: Seq<char>, b: Seq<char>) -> bool {
    a.len() == b.len() && (forall|i: int|
        0 <= i < a.len() ==> lower_u32(a[i] as u32) == lower_u32(b[i] as u32))
}

/// Compares two names case-insensitively (ASCII), as
/// `eq_ignore_ascii_case` says.
pub fn name_matches(a: &str, b: &str) -> (r: bool)
    ensures
        r == eq_ignore_ascii_case(a@, b@),
{
    let na = a.unicode_len();
    let nb = b.unicode_len();
    if na != nb {
        return false;
    }
    let mut i: usize = 0;
    while i < na
        invariant
            0 <= i <= na,
            na == a@.len(),
            na == b@.len(),
            forall|k: int| 0 <= k < i ==> lower_u32(a@[k] as u32) == lower_u32(b@[k] as u32),
        decreases na - i,
    {
        let ca = a.get_char(i) as u32;
        let cb = b.get_char(i) as u32;
        let la = if 0x41 <= ca && ca <= 0x5A {
            ca + 0x20
        } else {
            ca
        };
        let lb = if 0x41 <= cb && cb <= 0x5A {
            cb + 0x20
        } else {
            cb
        };
        if la != lb {
            return false;
        }
        i = i + 1;
    }
    true
}

/// The value of the first header whose name matches, if any.
pub open spec fn first_header_value(hs: Seq<Header>, name: Seq<char>) -> Option<Seq<char>>
    decreases hs.len(),
{
    if hs.len() == 0 {
        Option::None
    } else if eq_ignore_ascii_case(hs[0].name@, name) {
        Option::Some(hs[0].value@)
    } else {
        first_header_value(hs.drop_first(), name)
    }
}

/// The values of all headers whose names match, in order.
pub open spec fn all_header_values(hs: Seq<Header>, name: Seq<char>) -> Seq<Seq<char>>
    decreases hs.len(),
{
    if hs.len() == 0 {
        Seq::empty()
    } else {
        all_header_values(hs.drop_last(), name) + (if eq_ignore_ascii_case(
            hs.last().name@,
            name,
        ) {
            seq![hs.last().value@]
        } else {
            Seq::empty()
        })
    }
}

/// The addresses among a list of header values that parse, in order.
pub open spec fn parsed_addrs(vals: Seq<Seq<char>>) -> Seq<Seq<char>>
    decreases vals.len(),
{
    if vals.len() == 0 {
        Seq::empty()
    } else {
        parsed_addrs(vals.drop_last()) + (match parse_email_spec(vals.last()) {
            Option::Some(a) => seq![a],
            Option::None => Seq::empty(),
        })
    }
}

/// Finds the value of the first header whose name matches.
fn first_header(headers: &Vec<Header>, name: &str) -> (r: Option<String>)
    ensures
        opt_string_view(r) == first_header_value(headers@, name@),
{
    let n = headers.len();
    proof {
        assert(headers@.subrange(0, n as int) =~= headers@);
    }
    let mut i: usize = 0;
    while i < n
        invariant
            0 <= i <= n,
            n == headers@.len(),
            first_header_value(headers@, name@) == first_header_value(
                headers@.subrange(i as int, n as int),
                name@,
            ),
        decreases n - i,
    {
        let ghost pre = headers@.subrange(i as int, n as int);
        if name_matches(headers[i].name.as_str(), name) {
            proof {
                assert(pre[0] == headers@[i as int]);
            }
            return Option::Some(headers[i].value.clone());
        }
        i = i + 1;
        proof {
            assert(pre.drop_first() =~= headers@.subrange(i as int, n as int));
        }
    }
    proof {
        assert(headers@.subrange(n as int, n as int) =~= Seq::<Header>::empty());
    }
    Option::None
}

/// Collects the addresses of all matching headers whose values parse.
fn collect_addr_headers(headers: &Vec<Header>, name: &str) -> (r: Vec<EmailAddress>)
    ensures
        r.deep_view() == parsed_addrs(all_header_values(headers@, name@)),
{
    let mut r: Vec<EmailAddress> = Vec::new();
    let n = headers.len();
    let mut i: usize = 0;
    while i < n
        invariant
            0 <= i <= n,
            n == headers@.len(),
            r.deep_view() =~= parsed_addrs(
                all_header_values(headers@.subrange(0, i as int), name@),
            ),
        decreases n - i,
    {
        let ghost pre = headers@.subrange(0, i as int);
        if name_matches(headers[i].name.as_str(), name) {
            match EmailAddress::parse(headers[i].value.as_str()) {
                Ok(a) => {
                    r.push(a);
                },
                Err(_) => {},
            }
        }
        i = i + 1;
        proof {
            let p = headers@.subrange(0, i as int);
            assert(p.drop_last() =~= pre);
            lemma_parsed_addrs_push(all_header_values(pre, name@), p.last(), name@);
            assert(r.deep_view() =~= parsed_addrs(all_header_values(p, name@)));
        }
    }
    proof {
        assert(headers@.subrange(0, n as int) =~= headers@);
    }
    r
}

/// Appending one header extends the parsed-address filter by at most one
/// element.
proof fn lemma_parsed_addrs_push(vals: Seq<Seq<char>>, h: Header, name: Seq<char>)
    ensures
        parsed_addrs(
            vals + (if eq_ignore_ascii_case(h.name@, name) {
                seq![h.value@]
            } else {
                Seq::<Seq<char>>::empty()
            }),
        ) == parsed_addrs(vals) + (if eq_ignore_ascii_case(h.name@, name) {
            match parse_email_spec(h.value@) {
                Option::Some(a) => seq![a],
                Option::None => Seq::<Seq<char>>::empty(),
            }
        } else {
            Seq::<Seq<char>>::empty()
        }),
{
    if eq_ignore_ascii_case(h.name@, name) {
        let w = vals + seq![h.value@];
        assert(w.drop_last() =~= vals);
        assert(w.last() == h.value@);
    } else {
        assert(vals + Seq::<Seq<char>>::empty() =~= vals);
        assert(parsed_addrs(vals) + Seq::<Seq<char>>::empty() =~= parsed_addrs(vals));
    }
}

impl EmailMessage {
    /// Normalizes an ordered raw header list into a canonical message.
    ///
    /// Succeeds exactly when a `Date` header is present and parses as
    /// RFC 2822 text. Address headers are best-effort: each matching header
    /// value is parsed on its own and dropped silently when it does not
    /// parse. `bcc`, `in_reply_to`, `references` and `body` are never
    /// populated from this source.
    pub fn from_header_list(headers: &Vec<Header>) -> (r: Result<EmailMessage, AdapterError>)
        ensures
            r is Ok <==> (match first_header_value(headers@, "Date"@) {
                Option::Some(d) => rfc2822_of(d) is Some,
                Option::None => false,
            }),
            match r {
                Ok(msg) => {
                    &&& Option::Some(Option::Some(msg.date)) == (match first_header_value(
                        headers@,
                        "Date"@,
                    ) {
                        Option::Some(d) => Option::Some(rfc2822_of(d)),
                        Option::None => Option::None,
                    })
                    &&& msg.from.deep_view() == parsed_addrs(
                        all_header_values(headers@, "From"@),
                    )
                    &&& opt_addr_view(msg.sender) == (match first_header_value(
                        headers@,
                        "Sender"@,
                    ) {
                        Option::Some(v) => parse_email_spec(v),
                        Option::None => Option::None,
                    })
                    &&& msg.reply_to.deep_view() == parsed_addrs(
                        all_header_values(headers@, "Reply-To"@),
                    )
                    &&& msg.to.deep_view() == parsed_addrs(all_header_values(headers@, "To"@))
                    &&& msg.cc.deep_view() == parsed_addrs(all_header_values(headers@, "Cc"@))
                    &&& msg.bcc@.len() == 0
                    &&& opt_string_view(msg.subject) == first_header_value(
                        headers@,
                        "Subject"@,
                    )
                    &&& opt_id_view(msg.id) == (match first_header_value(
                        headers@,
                        "Message-ID"@,
                    ) {
                        Option::Some(v) => parse_message_id_spec(v),
                        Option::None => Option::None,
                    })
                    &&& msg.in_reply_to@.len() == 0
                    &&& msg.references@.len() == 0
                    &&& msg.body is None
                },
                Err(e) => {
                    &&& (e == AdapterError::MissingDate <==> first_header_value(
                        headers@,
                        "Date"@,
                    ) is None)
                    &&& (e == AdapterError::InvalidDate <==> first_header_value(
                        headers@,
                        "Date"@,
                    ) is Some)
                },
            },
    {
        let date = match first_header(headers, "Date") {
            Option::None => {
                return Err(AdapterError::MissingDate);
            },
            Option::Some(v) => match rfc2822_parse(v.as_str()) {
                Option::Some(dt) => dt,
                Option::None => {
                    return Err(AdapterError::InvalidDate);
                },
            },
        };
        let sender = match first_header(headers, "Sender") {
            Option::Some(v) => match EmailAddress::parse(v.as_str()) {
                Ok(a) => Option::Some(a),
                Err(_) => Option::None,
            },
            Option::None => Option::None,
        };
        let id = match first_header(headers, "Message-ID") {
            Option::Some(v) => match EmailMessageId::parse(v.as_str()) {
                Ok(mid) => Option::Some(mid),
                Err(_) => Option::None,
            },
            Option::None => Option::None,
        };
        Ok(
            EmailMessage {
                date,
                from: collect_addr_headers(headers, "From"),
                sender,
                reply_to: collect_addr_headers(headers, "Reply-To"),
                to: collect_addr_headers(headers, "To"),
                cc: collect_addr_headers(headers, "Cc"),
                bcc: Vec::new(),
                subject: first_header(headers, "Subject"),
                id,
                in_reply_to: Vec::new(),
                references: Vec::new(),
                body: Option::None,
            },
        )
    }
}

} // verus!
