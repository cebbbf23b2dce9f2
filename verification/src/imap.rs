//! Normalization of an IMAP envelope into a canonical email message.
//!
//! The envelope model mirrors what an IMAP fetch response exposes once the
//! wire parsing (an excluded collaborator) is done: optional raw byte fields
//! and optional lists of mailbox/host address structures. Raw bytes are
//! decoded as UTF-8 with replacement on error; an unparsable entry inside a
//! repeated field is dropped silently; only the mandatory date is fatal.

use vstd::prelude::*;
use vstd::string::StringExecFns;

use crate::datetime::{rfc2822_of, rfc2822_parse, DateTime};
use crate::email_address::EmailAddress;
use crate::email_message::EmailMessage;
use crate::email_message_id::{parse_message_id_spec, EmailMessageId};
use crate::errors::AdapterError;
use crate::text::{lower_of, lowercase, push_char, utf8_lossy, utf8_lossy_of};

verus! {

/// One address structure of an IMAP envelope: a mailbox and a host, each
/// possibly absent.
#[derive(Clone, Debug, Default, Eq, Hash, PartialEq, PartialOrd, Ord)]
pub struct ImapAddress {
    pub mailbox: Option<Vec<u8>>,
    pub host: Option<Vec<u8>>,
}

/// An IMAP envelope: optional raw byte fields and optional address lists,
/// as the wire format exposes them.
#[derive(Clone, Debug, Default, Eq, Hash, PartialEq, PartialOrd, Ord)]
pub struct ImapEnvelope {
    pub date: Option<Vec<u8>>,
    pub subject: Option<Vec<u8>>,
    pub from: Option<Vec<ImapAddress>>,
    pub sender: Option<Vec<ImapAddress>>,
    pub reply_to: Option<Vec<ImapAddress>>,
    pub to: Option<Vec<ImapAddress>>,
    pub cc: Option<Vec<ImapAddress>>,
    /// Present on the wire type, but never read: no adapter populates `bcc`.
    pub bcc: Option<Vec<ImapAddress>>,
    pub in_reply_to: Option<Vec<u8>>,
    pub message_id: Option<Vec<u8>>,
}

/// The canonical address of one envelope entry: `mailbox@host`, decoded
/// lossily and lower-cased; nothing when either part is absent.
pub open spec fn imap_addr_spec(a: ImapAddress) -> Option<Seq<char>> {
    match (a.mailbox, a.host) {
        (Option::Some(mb), Option::Some(h)) => Option::Some(
            lower_of(utf8_lossy_of(mb@) + seq!['@'] + utf8_lossy_of(h@)),
        ),
        _ => Option::None,
    }
}

/// The canonical addresses of a list, keeping order and dropping entries
/// that lack a mailbox or a host.
pub open spec fn imap_addrs_spec(addrs: Seq<ImapAddress>) -> Seq<Seq<char>>
    decreases addrs.len(),
{
    if addrs.len() == 0 {
        Seq::empty()
    } else {
        imap_addrs_spec(addrs.drop_last()) + (match imap_addr_spec(addrs.last()) {
            Option::Some(a) => seq![a],
            Option::None => Seq::empty(),
        })
    }
}

/// The canonical addresses of an optional list: absent means none.
pub open spec fn imap_opt_addrs(v: Option<Vec<ImapAddress>>) -> Seq<Seq<char>> {
    match v {
        Option::Some(xs) => imap_addrs_spec(xs@),
        Option::None => Seq::empty(),
    }
}

/// The first parseable address of a list, if any.
pub open spec fn imap_first_spec(addrs: Seq<ImapAddress>) -> Option<Seq<char>>
    decreases addrs.len(),
{
    if addrs.len() == 0 {
        Option::None
    } else {
        match imap_addr_spec(addrs[0]) {
            Option::Some(a) => Option::Some(a),
            Option::None => imap_first_spec(addrs.drop_first()),
        }
    }
}

/// The first parseable address of an optional list.
pub open spec fn imap_opt_first(v: Option<Vec<ImapAddress>>) -> Option<Seq<char>> {
    match v {
        Option::Some(xs) => imap_first_spec(xs@),
        Option::None => Option::None,
    }
}

/// What the mandatory date of an envelope denotes, where it is present and
/// parses as RFC 2822 text.
pub open spec fn imap_date_spec(date: Option<Vec<u8>>) -> Option<DateTime> {
    match date {
        Option::Some(d) => rfc2822_of(utf8_lossy_of(d@)),
        Option::None => Option::None,
    }
}

/// The view of an optional address value.
pub open spec fn opt_addr_view(v: Option<EmailAddress>) -> Option<Seq<char>> {
    match v {
        Option::Some(a) => Option::Some(a@),
        Option::None => Option::None,
    }
}

/// The view of an optional identifier value.
pub open spec fn opt_id_view(v: Option<EmailMessageId>) -> Option<Seq<char>> {
    match v {
        Option::Some(i) => Option::Some(i@),
        Option::None => Option::None,
    }
}

/// The view of an optional text value.
pub open spec fn opt_string_view(v: Option<String>) -> Option<Seq<char>> {
    match v {
        Option::Some(s) => Option::Some(s@),
        Option::None => Option::None,
    }
}

impl EmailAddress {
    /// The canonical address of one envelope entry, exactly as
    /// `imap_addr_spec` says; fails when mailbox or host is absent.
    pub fn from_imap_address(a: &ImapAddress) -> (r: Option<EmailAddress>)
        ensures
            opt_addr_view(r) == imap_addr_spec(*a),
    {
        match (&a.mailbox, &a.host) {
            (Option::Some(mb), Option::Some(h)) => {
                let mut joinedaddr = utf8_lossy(mb.as_slice());
                push_char(&mut joinedaddr, '@');
                let hs = utf8_lossy(h.as_slice());
                joinedaddr.append(hs.as_str());
                proof {
                    assert(joinedaddr@ =~= utf8_lossy_of(mb@) + seq!['@'] + utf8_lossy_of(h@));
                }
                Option::Some(EmailAddress::new_canonical(lowercase(joinedaddr.as_str())))
            },
            _ => Option::None,
        }
    }
}

/// Collects the canonical addresses of an optional envelope list.
fn collect_imap_addrs(v: &Option<Vec<ImapAddress>>) -> (r: Vec<EmailAddress>)
    ensures
        r.deep_view() == imap_opt_addrs(*v),
{
    let mut r: Vec<EmailAddress> = Vec::new();
    match v {
        Option::Some(xs) => {
            let n = xs.len();
            let mut i: usize = 0;
            while i < n
                invariant
                    0 <= i <= n,
                    n == xs@.len(),
                    r.deep_view() =~= imap_addrs_spec(xs@.subrange(0, i as int)),
                decreases n - i,
            {
                let ghost pre = xs@.subrange(0, i as int);
                match EmailAddress::from_imap_address(&xs[i]) {
                    Option::Some(a) => {
                        r.push(a);
                    },
                    Option::None => {},
                }
                i = i + 1;
                proof {
                    let p = xs@.subrange(0, i as int);
                    assert(p.drop_last() =~= pre);
                    assert(r.deep_view() =~= imap_addrs_spec(p));
                }
            }
            proof {
                assert(xs@.subrange(0, n as int) =~= xs@);
            }
        },
        Option::None => {},
    }
    proof {
        assert(r.deep_view() =~= imap_opt_addrs(*v));
    }
    r
}

/// Finds the first parseable address of an optional envelope list.
fn first_imap_addr(v: &Option<Vec<ImapAddress>>) -> (r: Option<EmailAddress>)
    ensures
        opt_addr_view(r) == imap_opt_first(*v),
{
    match v {
        Option::Some(xs) => {
            let n = xs.len();
            proof {
                assert(xs@.subrange(0, n as int) =~= xs@);
            }
            let mut i: usize = 0;
            while i < n
                invariant
                    0 <= i <= n,
                    n == xs@.len(),
                    *v == Option::Some(*xs),
                    imap_first_spec(xs@) == imap_first_spec(xs@.subrange(i as int, n as int)),
                decreases n - i,
            {
                let ghost pre = xs@.subrange(i as int, n as int);
                match EmailAddress::from_imap_address(&xs[i]) {
                    Option::Some(a) => {
                        proof {
                            assert(pre[0] == xs@[i as int]);
                            assert(imap_first_spec(pre) == Option::Some(a@));
                        }
                        return Option::Some(a);
                    },
                    Option::None => {},
                }
                i = i + 1;
                proof {
                    assert(pre.drop_first() =~= xs@.subrange(i as int, n as int));
                }
            }
            proof {
                assert(xs@.subrange(n as int, n as int) =~= Seq::<ImapAddress>::empty());
            }
            Option::None
        },
        Option::None => Option::None,
    }
}

impl EmailMessage {
    /// Normalizes an IMAP envelope into a canonical message.
    ///
    /// Succeeds exactly when the envelope carries a date that parses as
    /// RFC 2822 text; every other field is best-effort: unparsable entries of
    /// repeated fields are dropped, raw bytes are decoded with replacement.
    /// `bcc`, `in_reply_to`, `references` and `body` are never populated from
    /// this source.
    pub fn from_imap_envelope(env: &ImapEnvelope) -> (r: Result<EmailMessage, AdapterError>)
        ensures
            r is Ok <==> imap_date_spec(env.date) is Some,
            match r {
                Ok(msg) => {
                    &&& Option::Some(msg.date) == imap_date_spec(env.date)
                    &&& msg.from.deep_view() == imap_opt_addrs(env.from)
                    &&& opt_addr_view(msg.sender) == imap_opt_first(env.sender)
                    &&& msg.reply_to.deep_view() == imap_opt_addrs(env.reply_to)
                    &&& msg.to.deep_view() == imap_opt_addrs(env.to)
                    &&& msg.cc.deep_view() == imap_opt_addrs(env.cc)
                    &&& msg.bcc@.len() == 0
                    &&& opt_string_view(msg.subject) == (match env.subject {
                        Option::Some(b) => Option::Some(utf8_lossy_of(b@)),
                        Option::None => Option::None,
                    })
                    &&& opt_id_view(msg.id) == (match env.message_id {
                        Option::Some(b) => parse_message_id_spec(utf8_lossy_of(b@)),
                        Option::None => Option::None,
                    })
                    &&& msg.in_reply_to@.len() == 0
                    &&& msg.references@.len() == 0
                    &&& msg.body is None
                },
                Err(e) => {
                    &&& (e == AdapterError::MissingDate <==> env.date is None)
                    &&& (e == AdapterError::InvalidDate <==> env.date is Some)
                },
            },
    {
        let date = match &env.date {
            Option::None => {
                return Err(AdapterError::MissingDate);
            },
            Option::Some(d) => {
                let text = utf8_lossy(d.as_slice());
                match rfc2822_parse(text.as_str()) {
                    Option::Some(dt) => dt,
                    Option::None => {
                        return Err(AdapterError::InvalidDate);
                    },
                }
            },
        };
        let subject = match &env.subject {
            Option::Some(b) => Option::Some(utf8_lossy(b.as_slice())),
            Option::None => Option::None,
        };
        let id = match &env.message_id {
            Option::Some(b) => {
                let text = utf8_lossy(b.as_slice());
                match EmailMessageId::parse(text.as_str()) {
                    Ok(mid) => Option::Some(mid),
                    Err(_) => Option::None,
                }
            },
            Option::None => Option::None,
        };
        Ok(
            EmailMessage {
                date,
                from: collect_imap_addrs(&env.from),
                sender: first_imap_addr(&env.sender),
                reply_to: collect_imap_addrs(&env.reply_to),
                to: collect_imap_addrs(&env.to),
                cc: collect_imap_addrs(&env.cc),
                bcc: Vec::new(),
                subject,
                id,
                in_reply_to: Vec::new(),
                references: Vec::new(),
                body: Option::None,
            },
        )
    }
}

} // verus!
