//! The canonical electronic mail message record and its rendering views.

use vstd::prelude::*;
use vstd::string::{StrSliceExecFns, StringExecFns};

use crate::datetime::{
    datetime_inline_spec, datetime_mime_spec, iso_display_spec, DateTime,
};
use crate::duration::since;
use crate::email_address::{email_address_inline, EmailAddress};
use crate::email_message_id::{email_message_id_inline, EmailMessageId};
use crate::formatters::{
    DisplayConcise, DisplayDetailed, DisplayInline, DisplayJsonLd, DisplayMime, DisplayOneliner,
};
use crate::json::{
    fields_model, lemma_model_has_key_add, model_has_key, JsonData, JsonField, JsonObject,
};
use crate::text::{joined, push_char};

verus! {

broadcast use vstd::string::group_string_axioms;

/// The canonical email message: one mandatory moment, senders and recipients
/// as normalized addresses, threading identifiers, and optional free text.
///
/// Created once by an adapter from one third-party source and immutable
/// thereafter; a new instance replaces an old one if re-ingested. `bcc` is
/// never populated by any adapter, since no source format exposes it.
#[derive(Clone, Debug, Default, Eq, Hash, Ord, PartialEq, PartialOrd)]
pub struct EmailMessage {
    /// The origination date; mandatory.
    pub date: DateTime,
    /// The authors; zero or more (non-empty for valid mail, not enforced).
    pub from: Vec<EmailAddress>,
    /// The transmitting agent, when distinct from the authors.
    pub sender: Option<EmailAddress>,
    /// Where replies are asked to go.
    pub reply_to: Vec<EmailAddress>,
    /// The primary recipients.
    pub to: Vec<EmailAddress>,
    /// The carbon-copy recipients.
    pub cc: Vec<EmailAddress>,
    /// The blind-carbon-copy recipients; always empty after normalization.
    pub bcc: Vec<EmailAddress>,
    /// The subject, free text, never normalized.
    pub subject: Option<String>,
    /// The unique message identifier; absence is valid.
    pub id: Option<EmailMessageId>,
    /// Identifiers of the messages this one answers.
    pub in_reply_to: Vec<EmailMessageId>,
    /// Identifiers of related messages, for threading.
    pub references: Vec<EmailMessageId>,
    /// The decoded plain-text body, when the source exposes one.
    pub body: Option<String>,
}

/// The single-line views of each address.
pub open spec fn addr_inline_views(addrs: Seq<Seq<char>>) -> Seq<Seq<char>> {
    Seq::new(addrs.len(), |i: int| email_address_inline(addrs[i]))
}

/// The single-line views of each identifier.
pub open spec fn id_inline_views(ids: Seq<Seq<char>>) -> Seq<Seq<char>> {
    Seq::new(ids.len(), |i: int| email_message_id_inline(ids[i]))
}

/// Each address as a `mailto:` reference.
pub open spec fn mailto_views(addrs: Seq<Seq<char>>) -> Seq<Seq<char>> {
    Seq::new(addrs.len(), |i: int| "mailto:"@ + addrs[i])
}

/// Each identifier as a `mid:` reference.
pub open spec fn mid_views(ids: Seq<Seq<char>>) -> Seq<Seq<char>> {
    Seq::new(ids.len(), |i: int| "mid:"@ + ids[i])
}

/// ` addr:` for each author, in order.
pub open spec fn inline_from_parts(addrs: Seq<Seq<char>>) -> Seq<char>
    decreases addrs.len(),
{
    if addrs.len() == 0 {
        Seq::empty()
    } else {
        inline_from_parts(addrs.drop_last()) + seq![' '] + addrs.last() + seq![':']
    }
}

/// ` subject`, when a subject is present.
pub open spec fn inline_subject_part(subject: Option<String>) -> Seq<char> {
    match subject {
        Option::Some(s) => seq![' '] + s@,
        Option::None => Seq::empty(),
    }
}

/// The inline view: `date sender1: sender2: ... subject`, one line, no
/// trailing newline.
pub open spec fn email_inline_spec(m: EmailMessage) -> Seq<char> {
    iso_display_spec(m.date) + inline_from_parts(m.from.deep_view()) + inline_subject_part(
        m.subject,
    )
}

/// The oneliner view: the inline view plus a trailing newline.
pub open spec fn email_oneliner_spec(m: EmailMessage) -> Seq<char> {
    email_inline_spec(m) + seq!['\n']
}

/// One `label item` line per item.
pub open spec fn labeled_lines(label: Seq<char>, items: Seq<Seq<char>>) -> Seq<char>
    decreases items.len(),
{
    if items.len() == 0 {
        Seq::empty()
    } else {
        labeled_lines(label, items.drop_last()) + label + items.last() + seq!['\n']
    }
}

/// The emoji-prefixed subject line, when a subject is present.
pub open spec fn subject_line(subject: Option<String>) -> Seq<char> {
    match subject {
        Option::Some(s) => "✉️  "@ + s@ + seq!['\n'],
        Option::None => Seq::empty(),
    }
}

/// The labeled date line of the concise and detailed views.
pub open spec fn date_line(d: DateTime) -> Seq<char> {
    "\tDate: "@ + datetime_inline_spec(d) + seq!['\n']
}

/// One labeled line with the comma-joined single-line address views, or
/// nothing when there are no addresses.
pub open spec fn joined_addr_line(label: Seq<char>, addrs: Seq<Seq<char>>) -> Seq<char> {
    if addrs.len() == 0 {
        Seq::empty()
    } else {
        label + joined(addr_inline_views(addrs), ", "@) + seq!['\n']
    }
}

/// The labeled message-identifier line, when an identifier is present.
pub open spec fn message_id_line(id: Option<EmailMessageId>) -> Seq<char> {
    match id {
        Option::Some(i) => "\tMessage-ID: "@ + email_message_id_inline(i@) + seq!['\n'],
        Option::None => Seq::empty(),
    }
}

/// The concise view: labeled lines, comma-joined repeated fields, empty
/// repeated fields omitted entirely.
pub open spec fn email_concise_spec(m: EmailMessage) -> Seq<char> {
    subject_line(m.subject) + date_line(m.date) + joined_addr_line("\tFrom: "@, m.from.deep_view())
        + joined_addr_line("\tTo: "@, m.to.deep_view()) + joined_addr_line(
        "\tCc: "@,
        m.cc.deep_view(),
    ) + joined_addr_line("\tBcc: "@, m.bcc.deep_view()) + message_id_line(m.id)
}

/// The detailed view: one labeled line per individual address or identifier.
pub open spec fn email_detailed_spec(m: EmailMessage) -> Seq<char> {
    subject_line(m.subject) + date_line(m.date) + labeled_lines(
        "\tFrom: "@,
        addr_inline_views(m.from.deep_view()),
    ) + labeled_lines("\tTo: "@, addr_inline_views(m.to.deep_view())) + labeled_lines(
        "\tCc: "@,
        addr_inline_views(m.cc.deep_view()),
    ) + labeled_lines("\tBcc: "@, addr_inline_views(m.bcc.deep_view())) + message_id_line(m.id)
        + labeled_lines("\tIn-Reply-To: "@, id_inline_views(m.in_reply_to.deep_view()))
        + labeled_lines("\tReferences: "@, id_inline_views(m.references.deep_view()))
}

/// An optional `label value` line of the MIME view.
pub open spec fn mime_opt_line(label: Seq<char>, value: Option<String>) -> Seq<char> {
    match value {
        Option::Some(s) => label + s@ + seq!['\n'],
        Option::None => Seq::empty(),
    }
}

/// The `Message-ID:` line of the MIME view, with the brackets re-added.
pub open spec fn mime_id_line(id: Option<EmailMessageId>) -> Seq<char> {
    match id {
        Option::Some(i) => "Message-ID: <"@ + i@ + ">"@ + seq!['\n'],
        Option::None => Seq::empty(),
    }
}

/// The blank line and body of the MIME view, when a body is present.
pub open spec fn mime_body_part(body: Option<String>) -> Seq<char> {
    match body {
        Option::Some(b) => seq!['\n'] + b@ + seq!['\n'],
        Option::None => Seq::empty(),
    }
}

/// The MIME view: an RFC 5322 shaped header block (one address per line,
/// repeated header names), then a blank line and the body if present.
pub open spec fn email_mime_spec(m: EmailMessage) -> Seq<char> {
    "Date: "@ + datetime_mime_spec(m.date) + seq!['\n'] + labeled_lines(
        "From: "@,
        m.from.deep_view(),
    ) + labeled_lines("To: "@, m.to.deep_view()) + labeled_lines("Cc: "@, m.cc.deep_view())
        + labeled_lines("Bcc: "@, m.bcc.deep_view()) + mime_opt_line("Subject: "@, m.subject)
        + mime_id_line(m.id) + labeled_lines(
        "In-Reply-To: "@,
        id_inline_views(m.in_reply_to.deep_view()),
    ) + labeled_lines("References: "@, id_inline_views(m.references.deep_view())) + mime_body_part(
        m.body,
    )
}

/// The `@id` of the JSON-LD object: the `mid:` reference when an identifier
/// exists, else the stable placeholder blank node `_:message`.
pub open spec fn email_jsonld_id(id: Option<EmailMessageId>) -> JsonData {
    match id {
        Option::Some(i) => JsonData::Text("mid:"@ + i@),
        Option::None => JsonData::Text("_:message"@),
    }
}

/// A one-member model when the option holds text, else no members.
pub open spec fn opt_text_entry(key: Seq<char>, v: Option<Seq<char>>) -> Seq<(Seq<char>, JsonData)> {
    match v {
        Option::Some(s) => seq![(key, JsonData::Text(s))],
        Option::None => Seq::empty(),
    }
}

/// A one-member array model when `items` is non-empty, else no members.
pub open spec fn arr_entry(key: Seq<char>, items: Seq<Seq<char>>) -> Seq<(Seq<char>, JsonData)> {
    if items.len() == 0 {
        Seq::empty()
    } else {
        seq![(key, JsonData::Items(items))]
    }
}

/// The leading members of the JSON-LD object: type, identity, date, and the
/// originator fields.
pub open spec fn email_jsonld_head(m: EmailMessage) -> Seq<(Seq<char>, JsonData)> {
    seq![
        ("@type"@, JsonData::Text("EmailMessage"@)),
        ("@id"@, email_jsonld_id(m.id)),
        ("date"@, JsonData::Text(iso_display_spec(m.date))),
    ] + arr_entry("from"@, mailto_views(m.from.deep_view())) + opt_text_entry(
        "sender"@,
        match m.sender {
            Option::Some(a) => Option::Some("mailto:"@ + a@),
            Option::None => Option::None,
        },
    ) + arr_entry("replyTo"@, mailto_views(m.reply_to.deep_view()))
}

/// The destination and informational members of the JSON-LD object.
pub open spec fn email_jsonld_mid(m: EmailMessage) -> Seq<(Seq<char>, JsonData)> {
    arr_entry("to"@, mailto_views(m.to.deep_view())) + arr_entry(
        "cc"@,
        mailto_views(m.cc.deep_view()),
    ) + arr_entry("bcc"@, mailto_views(m.bcc.deep_view())) + opt_text_entry(
        "subject"@,
        match m.subject {
            Option::Some(s) => Option::Some(s@),
            Option::None => Option::None,
        },
    )
}

/// The identification, threading and body members of the JSON-LD object.
pub open spec fn email_jsonld_tail(m: EmailMessage) -> Seq<(Seq<char>, JsonData)> {
    opt_text_entry(
        "id"@,
        match m.id {
            Option::Some(i) => Option::Some("mid:"@ + i@),
            Option::None => Option::None,
        },
    ) + arr_entry("inReplyTo"@, mid_views(m.in_reply_to.deep_view())) + arr_entry(
        "references"@,
        mid_views(m.references.deep_view()),
    ) + opt_text_entry(
        "body"@,
        match m.body {
            Option::Some(b) => Option::Some(b@),
            Option::None => Option::None,
        },
    )
}

/// The JSON-LD object of a message: `@type`, `@id` and `date` always;
/// every other member only when its field is non-empty, with addresses as
/// `mailto:` references and identifiers as `mid:` references.
pub open spec fn email_jsonld_spec(m: EmailMessage) -> Seq<(Seq<char>, JsonData)> {
    email_jsonld_head(m) + email_jsonld_mid(m) + email_jsonld_tail(m)
}

/// The summary sentence built from a rounded timespan and the message.
pub open spec fn what_summary_spec(m: EmailMessage, timespan: Seq<char>) -> Seq<char> {
    "An email message dated "@ + timespan + " ago"@ + (if m.from.deep_view().len() > 0 {
        ", from "@ + m.from.deep_view()[0]
    } else {
        Seq::empty()
    }) + (if m.to.deep_view().len() > 0 {
        ", addressed to "@ + joined(m.to.deep_view(), ", "@)
    } else {
        Seq::empty()
    }) + (match m.subject {
        Option::Some(s) => ", with the subject \""@ + s@ + "\""@,
        Option::None => Seq::empty(),
    })
}

/// Appends ` addr:` for each author.
fn push_inline_from(out: &mut String, addrs: &Vec<EmailAddress>)
    ensures
        final(out)@ == old(out)@ + inline_from_parts(addrs.deep_view()),
{
    let n = addrs.len();
    let mut i: usize = 0;
    proof {
        assert(addrs.deep_view().subrange(0, 0) =~= Seq::<Seq<char>>::empty());
        assert(out@ =~= old(out)@ + inline_from_parts(addrs.deep_view().subrange(0, 0)));
    }
    while i < n
        invariant
            0 <= i <= n,
            n == addrs@.len(),
            out@ == old(out)@ + inline_from_parts(addrs.deep_view().subrange(0, i as int)),
        decreases n - i,
    {
        push_char(out, ' ');
        out.append(addrs[i].as_str());
        push_char(out, ':');
        i = i + 1;
        proof {
            let p = addrs.deep_view().subrange(0, i as int);
            assert(p.drop_last() =~= addrs.deep_view().subrange(0, i - 1));
            assert(out@ =~= old(out)@ + inline_from_parts(p));
        }
    }
    proof {
        assert(addrs.deep_view().subrange(0, n as int) =~= addrs.deep_view());
    }
}

/// Appends the comma-joined single-line address views.
fn push_joined_inline(out: &mut String, addrs: &Vec<EmailAddress>)
    ensures
        final(out)@ == old(out)@ + joined(addr_inline_views(addrs.deep_view()), ", "@),
{
    let ghost all = addr_inline_views(addrs.deep_view());
    let n = addrs.len();
    let mut i: usize = 0;
    proof {
        assert(out@ =~= old(out)@ + joined(all.subrange(0, 0), ", "@));
    }
    while i < n
        invariant
            0 <= i <= n,
            n == addrs@.len(),
            all == addr_inline_views(addrs.deep_view()),
            out@ == old(out)@ + joined(all.subrange(0, i as int), ", "@),
        decreases n - i,
    {
        if i > 0 {
            out.append(", ");
        }
        let part = addrs[i].inline().to_string();
        out.append(part.as_str());
        i = i + 1;
        proof {
            let p = all.subrange(0, i as int);
            assert(p.drop_last() =~= all.subrange(0, i - 1));
            assert(out@ =~= old(out)@ + joined(p, ", "@));
        }
    }
    proof {
        assert(all.subrange(0, n as int) =~= all);
    }
}

/// Appends one `label 📧 addr` line per address.
fn push_addr_lines(out: &mut String, label: &str, addrs: &Vec<EmailAddress>)
    ensures
        final(out)@ == old(out)@ + labeled_lines(label@, addr_inline_views(addrs.deep_view())),
{
    let ghost all = addr_inline_views(addrs.deep_view());
    let n = addrs.len();
    let mut i: usize = 0;
    proof {
        assert(out@ =~= old(out)@ + labeled_lines(label@, all.subrange(0, 0)));
    }
    while i < n
        invariant
            0 <= i <= n,
            n == addrs@.len(),
            all == addr_inline_views(addrs.deep_view()),
            out@ == old(out)@ + labeled_lines(label@, all.subrange(0, i as int)),
        decreases n - i,
    {
        out.append(label);
        let part = addrs[i].inline().to_string();
        out.append(part.as_str());
        push_char(out, '\n');
        i = i + 1;
        proof {
            let p = all.subrange(0, i as int);
            assert(p.drop_last() =~= all.subrange(0, i - 1));
            assert(out@ =~= old(out)@ + labeled_lines(label@, p));
        }
    }
    proof {
        assert(all.subrange(0, n as int) =~= all);
    }
}

/// Appends one `label addr` line per address, with the bare address text.
fn push_raw_addr_lines(out: &mut String, label: &str, addrs: &Vec<EmailAddress>)
    ensures
        final(out)@ == old(out)@ + labeled_lines(label@, addrs.deep_view()),
{
    let ghost all = addrs.deep_view();
    let n = addrs.len();
    let mut i: usize = 0;
    proof {
        assert(out@ =~= old(out)@ + labeled_lines(label@, all.subrange(0, 0)));
    }
    while i < n
        invariant
            0 <= i <= n,
            n == addrs@.len(),
            all == addrs.deep_view(),
            out@ == old(out)@ + labeled_lines(label@, all.subrange(0, i as int)),
        decreases n - i,
    {
        out.append(label);
        out.append(addrs[i].as_str());
        push_char(out, '\n');
        i = i + 1;
        proof {
            let p = all.subrange(0, i as int);
            assert(p.drop_last() =~= all.subrange(0, i - 1));
            assert(out@ =~= old(out)@ + labeled_lines(label@, p));
        }
    }
    proof {
        assert(all.subrange(0, n as int) =~= all);
    }
}

/// Appends one `label 🆔 id` line per identifier.
fn push_id_lines(out: &mut String, label: &str, ids: &Vec<EmailMessageId>)
    ensures
        final(out)@ == old(out)@ + labeled_lines(label@, id_inline_views(ids.deep_view())),
{
    let ghost all = id_inline_views(ids.deep_view());
    let n = ids.len();
    let mut i: usize = 0;
    proof {
        assert(out@ =~= old(out)@ + labeled_lines(label@, all.subrange(0, 0)));
    }
    while i < n
        invariant
            0 <= i <= n,
            n == ids@.len(),
            all == id_inline_views(ids.deep_view()),
            out@ == old(out)@ + labeled_lines(label@, all.subrange(0, i as int)),
        decreases n - i,
    {
        out.append(label);
        let part = ids[i].inline().to_string();
        out.append(part.as_str());
        push_char(out, '\n');
        i = i + 1;
        proof {
            let p = all.subrange(0, i as int);
            assert(p.drop_last() =~= all.subrange(0, i - 1));
            assert(out@ =~= old(out)@ + labeled_lines(label@, p));
        }
    }
    proof {
        assert(all.subrange(0, n as int) =~= all);
    }
}

/// Each address as an owned `mailto:` string.
fn mailto_items(addrs: &Vec<EmailAddress>) -> (r: Vec<String>)
    ensures
        r.deep_view() == mailto_views(addrs.deep_view()),
{
    let mut r: Vec<String> = Vec::new();
    let ghost all = mailto_views(addrs.deep_view());
    let n = addrs.len();
    let mut i: usize = 0;
    while i < n
        invariant
            0 <= i <= n,
            n == addrs@.len(),
            all == mailto_views(addrs.deep_view()),
            r@.len() == i,
            forall|k: int| 0 <= k < i ==> r@[k]@ == all[k],
        decreases n - i,
    {
        let mut s = String::from_str("mailto:");
        s.append(addrs[i].as_str());
        proof {
            assert(s@ == all[i as int]);
        }
        r.push(s);
        i = i + 1;
    }
    proof {
        assert(r.deep_view() =~~= all);
    }
    r
}

/// Each identifier as an owned `mid:` string.
fn mid_items(ids: &Vec<EmailMessageId>) -> (r: Vec<String>)
    ensures
        r.deep_view() == mid_views(ids.deep_view()),
{
    let mut r: Vec<String> = Vec::new();
    let ghost all = mid_views(ids.deep_view());
    let n = ids.len();
    let mut i: usize = 0;
    while i < n
        invariant
            0 <= i <= n,
            n == ids@.len(),
            all == mid_views(ids.deep_view()),
            r@.len() == i,
            forall|k: int| 0 <= k < i ==> r@[k]@ == all[k],
        decreases n - i,
    {
        let mut s = String::from_str("mid:");
        s.append(ids[i].as_str());
        proof {
            assert(s@ == all[i as int]);
        }
        r.push(s);
        i = i + 1;
    }
    proof {
        assert(r.deep_view() =~~= all);
    }
    r
}

impl EmailMessage {
    /// The single-line view of the message.
    pub fn inline(&self) -> (r: DisplayInline<'_, EmailMessage>)
        ensures
            r.0 == self,
    {
        DisplayInline(self)
    }

    /// The single-line view with a trailing newline.
    pub fn oneliner(&self) -> (r: DisplayOneliner<'_, EmailMessage>)
        ensures
            r.0 == self,
    {
        DisplayOneliner(self)
    }

    /// The multi-line labeled view with comma-joined repeated fields.
    pub fn concise(&self) -> (r: DisplayConcise<'_, EmailMessage>)
        ensures
            r.0 == self,
    {
        DisplayConcise(self)
    }

    /// The multi-line labeled view with one line per element.
    pub fn detailed(&self) -> (r: DisplayDetailed<'_, EmailMessage>)
        ensures
            r.0 == self,
    {
        DisplayDetailed(self)
    }

    /// The RFC 5322 shaped view.
    pub fn mime(&self) -> (r: DisplayMime<'_, EmailMessage>)
        ensures
            r.0 == self,
    {
        DisplayMime(self)
    }

    /// The JSON-LD view.
    pub fn jsonld(&self) -> (r: DisplayJsonLd<'_, EmailMessage>)
        ensures
            r.0 == self,
    {
        DisplayJsonLd(self)
    }

    /// The default textual form: the oneliner view.
    pub fn to_string(&self) -> (r: String)
        ensures
            r@ == email_oneliner_spec(*self),
    {
        self.oneliner().to_string()
    }

    /// The JSON-LD object of the message.
    ///
    /// `@type`, `@id` and `date` are always present; every optional or
    /// repeated field is present exactly when it is non-empty — absent keys,
    /// never `null` or `[]`. Two id-less messages share the stable `_:message`
    /// placeholder.
    #[verifier::rlimit(100)]
    pub fn to_jsonld(&self) -> (r: JsonObject)
        ensures
            r@ == email_jsonld_spec(*self),
            model_has_key(r@, "@type"@) && model_has_key(r@, "@id"@) && model_has_key(
                r@,
                "date"@,
            ),
            model_has_key(r@, "from"@) <==> self.from@.len() > 0,
            model_has_key(r@, "sender"@) <==> self.sender is Some,
            model_has_key(r@, "replyTo"@) <==> self.reply_to@.len() > 0,
            model_has_key(r@, "to"@) <==> self.to@.len() > 0,
            model_has_key(r@, "cc"@) <==> self.cc@.len() > 0,
            model_has_key(r@, "bcc"@) <==> self.bcc@.len() > 0,
            model_has_key(r@, "subject"@) <==> self.subject is Some,
            model_has_key(r@, "id"@) <==> self.id is Some,
            model_has_key(r@, "inReplyTo"@) <==> self.in_reply_to@.len() > 0,
            model_has_key(r@, "references"@) <==> self.references@.len() > 0,
            model_has_key(r@, "body"@) <==> self.body is Some,
    {
        let mut fields = self.jsonld_fields_head();
        self.jsonld_push_mid(&mut fields);
        self.jsonld_push_tail(&mut fields);
        let r = JsonObject { fields };
        proof {
            assert(r@ =~~= email_jsonld_spec(*self));
            lemma_email_jsonld_keys(*self);
        }
        r
    }

    /// Builds the leading JSON-LD members.
    fn jsonld_fields_head(&self) -> (r: Vec<(String, JsonField)>)
        ensures
            fields_model(r@) == email_jsonld_head(*self),
    {
        let mut fields: Vec<(String, JsonField)> = Vec::new();
        fields.push(
            (String::from_str("@type"), JsonField::Text(String::from_str("EmailMessage"))),
        );
        match &self.id {
            Option::Some(id) => {
                let mut s = String::from_str("mid:");
                s.append(id.as_str());
                fields.push((String::from_str("@id"), JsonField::Text(s)));
            },
            Option::None => {
                fields.push(
                    (String::from_str("@id"), JsonField::Text(String::from_str("_:message"))),
                );
            },
        }
        fields.push((String::from_str("date"), JsonField::Text(self.date.to_string())));
        if self.from.len() > 0 {
            fields.push((String::from_str("from"), JsonField::Items(mailto_items(&self.from))));
        }
        match &self.sender {
            Option::Some(a) => {
                let mut s = String::from_str("mailto:");
                s.append(a.as_str());
                fields.push((String::from_str("sender"), JsonField::Text(s)));
            },
            Option::None => {},
        }
        if self.reply_to.len() > 0 {
            fields.push(
                (String::from_str("replyTo"), JsonField::Items(mailto_items(&self.reply_to))),
            );
        }
        proof {
            assert(fields_model(fields@) =~~= email_jsonld_head(*self));
        }
        fields
    }

    /// Appends the destination and informational JSON-LD members.
    fn jsonld_push_mid(&self, fields: &mut Vec<(String, JsonField)>)
        ensures
            fields_model(final(fields)@) == fields_model(old(fields)@) + email_jsonld_mid(*self),
    {
        if self.to.len() > 0 {
            fields.push((String::from_str("to"), JsonField::Items(mailto_items(&self.to))));
        }
        if self.cc.len() > 0 {
            fields.push((String::from_str("cc"), JsonField::Items(mailto_items(&self.cc))));
        }
        if self.bcc.len() > 0 {
            fields.push((String::from_str("bcc"), JsonField::Items(mailto_items(&self.bcc))));
        }
        match &self.subject {
            Option::Some(s) => {
                fields.push((String::from_str("subject"), JsonField::Text(s.clone())));
            },
            Option::None => {},
        }
        proof {
            assert(fields_model(fields@) =~~= fields_model(old(fields)@) + email_jsonld_mid(
                *self,
            ));
        }
    }

    /// Appends the identification, threading and body JSON-LD members.
    fn jsonld_push_tail(&self, fields: &mut Vec<(String, JsonField)>)
        ensures
            fields_model(final(fields)@) == fields_model(old(fields)@) + email_jsonld_tail(*self),
    {
        match &self.id {
            Option::Some(id) => {
                let mut s = String::from_str("mid:");
                s.append(id.as_str());
                fields.push((String::from_str("id"), JsonField::Text(s)));
            },
            Option::None => {},
        }
        if self.in_reply_to.len() > 0 {
            fields.push(
                (String::from_str("inReplyTo"), JsonField::Items(mid_items(&self.in_reply_to))),
            );
        }
        if self.references.len() > 0 {
            fields.push(
                (String::from_str("references"), JsonField::Items(mid_items(&self.references))),
            );
        }
        match &self.body {
            Option::Some(b) => {
                fields.push((String::from_str("body"), JsonField::Text(b.clone())));
            },
            Option::None => {},
        }
        proof {
            assert(fields_model(fields@) =~~= fields_model(old(fields)@) + email_jsonld_tail(
                *self,
            ));
        }
    }

    /// The pure part of the English summary: the sentence built from a
    /// rounded timespan text and the message's own fields.
    pub fn what_summary(&self, timespan: &str) -> (r: String)
        ensures
            r@ == what_summary_spec(*self, timespan@),
    {
        let mut out = String::from_str("An email message dated ");
        out.append(timespan);
        out.append(" ago");
        if self.from.len() > 0 {
            out.append(", from ");
            out.append(self.from[0].as_str());
        }
        if self.to.len() > 0 {
            out.append(", addressed to ");
            push_joined_raw(&mut out, &self.to);
        }
        match &self.subject {
            Option::Some(s) => {
                out.append(", with the subject \"");
                out.append(s.as_str());
                out.append("\"");
            },
            Option::None => {},
        }
        proof {
            assert(out@ =~= what_summary_spec(*self, timespan@));
        }
        out
    }

    /// The English summary of the message: its age relative to the present
    /// moment, its first author, its recipients and its subject. The timespan
    /// comes from the clock, so only the sentence's shape is promised.
    pub fn what(&self) -> (r: Option<String>)
        ensures
            r matches Option::Some(s) ==> exists|ts: Seq<char>|
                s@ == what_summary_spec(*self, ts),
    {
        let now = DateTime::now();
        match since(&now, &self.date) {
            Option::Some(span) => match span.round() {
                Option::Some(rounded) => {
                    let ts = rounded.to_string();
                    let s = self.what_summary(ts.as_str());
                    proof {
                        assert(s@ == what_summary_spec(*self, ts@));
                    }
                    Option::Some(s)
                },
                Option::None => Option::None,
            },
            Option::None => Option::None,
        }
    }
}

/// Appends the comma-joined bare address texts.
fn push_joined_raw(out: &mut String, addrs: &Vec<EmailAddress>)
    ensures
        final(out)@ == old(out)@ + joined(addrs.deep_view(), ", "@),
{
    let ghost all = addrs.deep_view();
    let n = addrs.len();
    let mut i: usize = 0;
    proof {
        assert(out@ =~= old(out)@ + joined(all.subrange(0, 0), ", "@));
    }
    while i < n
        invariant
            0 <= i <= n,
            n == addrs@.len(),
            all == addrs.deep_view(),
            out@ == old(out)@ + joined(all.subrange(0, i as int), ", "@),
        decreases n - i,
    {
        if i > 0 {
            out.append(", ");
        }
        out.append(addrs[i].as_str());
        i = i + 1;
        proof {
            let p = all.subrange(0, i as int);
            assert(p.drop_last() =~= all.subrange(0, i - 1));
            assert(out@ =~= old(out)@ + joined(p, ", "@));
        }
    }
    proof {
        assert(all.subrange(0, n as int) =~= all);
    }
}

/// Every optional or repeated field of the JSON-LD object is present as a
/// key exactly when it is non-empty, and `@type`, `@id` and `date` are
/// always present.
proof fn lemma_arr_entry_key(key: Seq<char>, items: Seq<Seq<char>>)
    ensures
        forall|k: Seq<char>|
            #[trigger] model_has_key(arr_entry(key, items), k) <==> (items.len() > 0 && k == key),
{
    let e = arr_entry(key, items);
    assert forall|k: Seq<char>|
        #[trigger] model_has_key(e, k) <==> (items.len() > 0 && k == key) by {
        if model_has_key(e, k) {
            let i = choose|i: int| 0 <= i < e.len() && e[i].0 == k;
            assert(e[i].0 == key);
        }
        if items.len() > 0 && k == key {
            assert(e[0].0 == k);
        }
    }
}

proof fn lemma_opt_text_entry_key(key: Seq<char>, v: Option<Seq<char>>)
    ensures
        forall|k: Seq<char>|
            #[trigger] model_has_key(opt_text_entry(key, v), k) <==> (v is Some && k == key),
{
    let e = opt_text_entry(key, v);
    assert forall|k: Seq<char>|
        #[trigger] model_has_key(e, k) <==> (v is Some && k == key) by {
        if model_has_key(e, k) {
            let i = choose|i: int| 0 <= i < e.len() && e[i].0 == k;
            assert(e[i].0 == key);
        }
        if v is Some && k == key {
            assert(e[0].0 == k);
        }
    }
}

/// Every optional or repeated field of the JSON-LD object is present as a
/// key exactly when it is non-empty, and `@type`, `@id` and `date` are
/// always present.
#[verifier::rlimit(100)]
pub proof fn lemma_email_jsonld_keys(m: EmailMessage)
    ensures
        model_has_key(email_jsonld_spec(m), "@type"@),
        model_has_key(email_jsonld_spec(m), "@id"@),
        model_has_key(email_jsonld_spec(m), "date"@),
        model_has_key(email_jsonld_spec(m), "from"@) <==> m.from@.len() > 0,
        model_has_key(email_jsonld_spec(m), "sender"@) <==> m.sender is Some,
        model_has_key(email_jsonld_spec(m), "replyTo"@) <==> m.reply_to@.len() > 0,
        model_has_key(email_jsonld_spec(m), "to"@) <==> m.to@.len() > 0,
        model_has_key(email_jsonld_spec(m), "cc"@) <==> m.cc@.len() > 0,
        model_has_key(email_jsonld_spec(m), "bcc"@) <==> m.bcc@.len() > 0,
        model_has_key(email_jsonld_spec(m), "subject"@) <==> m.subject is Some,
        model_has_key(email_jsonld_spec(m), "id"@) <==> m.id is Some,
        model_has_key(email_jsonld_spec(m), "inReplyTo"@) <==> m.in_reply_to@.len() > 0,
        model_has_key(email_jsonld_spec(m), "references"@) <==> m.references@.len() > 0,
        model_has_key(email_jsonld_spec(m), "body"@) <==> m.body is Some,
{
    reveal_strlit("@type");
    reveal_strlit("@id");
    reveal_strlit("date");
    reveal_strlit("from");
    reveal_strlit("sender");
    reveal_strlit("replyTo");
    reveal_strlit("to");
    reveal_strlit("cc");
    reveal_strlit("bcc");
    reveal_strlit("subject");
    reveal_strlit("id");
    reveal_strlit("inReplyTo");
    reveal_strlit("references");
    reveal_strlit("body");
    assert("@type"@.len() == 5 && "@type"@[0] == '@');
    assert("@id"@.len() == 3 && "@id"@[0] == '@');
    assert("date"@.len() == 4 && "date"@[0] == 'd');
    assert("from"@.len() == 4 && "from"@[0] == 'f');
    assert("sender"@.len() == 6 && "sender"@[0] == 's');
    assert("replyTo"@.len() == 7 && "replyTo"@[0] == 'r');
    assert("to"@.len() == 2 && "to"@[0] == 't');
    assert("cc"@.len() == 2 && "cc"@[0] == 'c');
    assert("bcc"@.len() == 3 && "bcc"@[0] == 'b');
    assert("subject"@.len() == 7 && "subject"@[0] == 's');
    assert("id"@.len() == 2 && "id"@[0] == 'i');
    assert("inReplyTo"@.len() == 9 && "inReplyTo"@[0] == 'i');
    assert("references"@.len() == 10 && "references"@[0] == 'r');
    assert("body"@.len() == 4 && "body"@[0] == 'b');
    let head = seq![
        ("@type"@, JsonData::Text("EmailMessage"@)),
        ("@id"@, email_jsonld_id(m.id)),
        ("date"@, JsonData::Text(iso_display_spec(m.date))),
    ];
    let v_sender = match m.sender {
        Option::Some(a) => Option::Some("mailto:"@ + a@),
        Option::None => Option::None,
    };
    let v_subject = match m.subject {
        Option::Some(s) => Option::Some(s@),
        Option::None => Option::None,
    };
    let v_id = match m.id {
        Option::Some(i) => Option::Some("mid:"@ + i@),
        Option::None => Option::None,
    };
    let v_body = match m.body {
        Option::Some(b) => Option::Some(b@),
        Option::None => Option::None,
    };
    let e_from = arr_entry("from"@, mailto_views(m.from.deep_view()));
    let e_sender = opt_text_entry("sender"@, v_sender);
    let e_reply = arr_entry("replyTo"@, mailto_views(m.reply_to.deep_view()));
    let e_to = arr_entry("to"@, mailto_views(m.to.deep_view()));
    let e_cc = arr_entry("cc"@, mailto_views(m.cc.deep_view()));
    let e_bcc = arr_entry("bcc"@, mailto_views(m.bcc.deep_view()));
    let e_subject = opt_text_entry("subject"@, v_subject);
    let e_id = opt_text_entry("id"@, v_id);
    let e_irt = arr_entry("inReplyTo"@, mid_views(m.in_reply_to.deep_view()));
    let e_refs = arr_entry("references"@, mid_views(m.references.deep_view()));
    let e_body = opt_text_entry("body"@, v_body);
    let s1 = head + e_from;
    let s2 = s1 + e_sender;
    let s3 = s2 + e_reply;
    let s4 = s3 + e_to;
    let s5 = s4 + e_cc;
    let s6 = s5 + e_bcc;
    let s7 = s6 + e_subject;
    let s8 = s7 + e_id;
    let s9 = s8 + e_irt;
    let s10 = s9 + e_refs;
    let s11 = s10 + e_body;
    assert(email_jsonld_spec(m) =~~= s11);
    assert forall|k: Seq<char>|
        #[trigger] model_has_key(s11, k) <==> (model_has_key(head, k) || model_has_key(e_from, k)
            || model_has_key(e_sender, k) || model_has_key(e_reply, k) || model_has_key(e_to, k)
            || model_has_key(e_cc, k) || model_has_key(e_bcc, k) || model_has_key(e_subject, k)
            || model_has_key(e_id, k) || model_has_key(e_irt, k) || model_has_key(e_refs, k)
            || model_has_key(e_body, k)) by {
        lemma_model_has_key_add(head, e_from);
        lemma_model_has_key_add(s1, e_sender);
        lemma_model_has_key_add(s2, e_reply);
        lemma_model_has_key_add(s3, e_to);
        lemma_model_has_key_add(s4, e_cc);
        lemma_model_has_key_add(s5, e_bcc);
        lemma_model_has_key_add(s6, e_subject);
        lemma_model_has_key_add(s7, e_id);
        lemma_model_has_key_add(s8, e_irt);
        lemma_model_has_key_add(s9, e_refs);
        lemma_model_has_key_add(s10, e_body);
        assert(model_has_key(s1, k) <==> (model_has_key(head, k) || model_has_key(e_from, k)));
        assert(model_has_key(s2, k) <==> (model_has_key(s1, k) || model_has_key(e_sender, k)));
        assert(model_has_key(s3, k) <==> (model_has_key(s2, k) || model_has_key(e_reply, k)));
        assert(model_has_key(s4, k) <==> (model_has_key(s3, k) || model_has_key(e_to, k)));
        assert(model_has_key(s5, k) <==> (model_has_key(s4, k) || model_has_key(e_cc, k)));
        assert(model_has_key(s6, k) <==> (model_has_key(s5, k) || model_has_key(e_bcc, k)));
        assert(model_has_key(s7, k) <==> (model_has_key(s6, k) || model_has_key(e_subject, k)));
        assert(model_has_key(s8, k) <==> (model_has_key(s7, k) || model_has_key(e_id, k)));
        assert(model_has_key(s9, k) <==> (model_has_key(s8, k) || model_has_key(e_irt, k)));
        assert(model_has_key(s10, k) <==> (model_has_key(s9, k) || model_has_key(e_refs, k)));
        assert(model_has_key(s11, k) <==> (model_has_key(s10, k) || model_has_key(e_body, k)));
    }
    lemma_arr_entry_key("from"@, mailto_views(m.from.deep_view()));
    lemma_opt_text_entry_key("sender"@, v_sender);
    lemma_arr_entry_key("replyTo"@, mailto_views(m.reply_to.deep_view()));
    lemma_arr_entry_key("to"@, mailto_views(m.to.deep_view()));
    lemma_arr_entry_key("cc"@, mailto_views(m.cc.deep_view()));
    lemma_arr_entry_key("bcc"@, mailto_views(m.bcc.deep_view()));
    lemma_opt_text_entry_key("subject"@, v_subject);
    lemma_opt_text_entry_key("id"@, v_id);
    lemma_arr_entry_key("inReplyTo"@, mid_views(m.in_reply_to.deep_view()));
    lemma_arr_entry_key("references"@, mid_views(m.references.deep_view()));
    lemma_opt_text_entry_key("body"@, v_body);
    assert(head[0].0 == "@type"@);
    assert(head[1].0 == "@id"@);
    assert(head[2].0 == "date"@);
    assert(model_has_key(head, "@type"@));
    assert(model_has_key(head, "@id"@));
    assert(model_has_key(head, "date"@));
    assert forall|k: Seq<char>| #[trigger] model_has_key(head, k) implies (k == "@type"@ || k
        == "@id"@ || k == "date"@) by {
        let i = choose|i: int| 0 <= i < head.len() && head[i].0 == k;
    }
    assert(mailto_views(m.from.deep_view()).len() == m.from@.len());
    assert(mailto_views(m.reply_to.deep_view()).len() == m.reply_to@.len());
    assert(mailto_views(m.to.deep_view()).len() == m.to@.len());
    assert(mailto_views(m.cc.deep_view()).len() == m.cc@.len());
    assert(mailto_views(m.bcc.deep_view()).len() == m.bcc@.len());
    assert(mid_views(m.in_reply_to.deep_view()).len() == m.in_reply_to@.len());
    assert(mid_views(m.references.deep_view()).len() == m.references@.len());
    assert(model_has_key(e_from, "from"@) <==> (m.from@.len() > 0));
    assert(model_has_key(s11, "from"@) <==> (m.from@.len() > 0));
    assert(model_has_key(e_sender, "sender"@) <==> (m.sender is Some));
    assert(model_has_key(s11, "sender"@) <==> (m.sender is Some));
    assert(model_has_key(e_reply, "replyTo"@) <==> (m.reply_to@.len() > 0));
    assert(model_has_key(s11, "replyTo"@) <==> (m.reply_to@.len() > 0));
    assert(model_has_key(e_to, "to"@) <==> (m.to@.len() > 0));
    assert(model_has_key(s11, "to"@) <==> (m.to@.len() > 0));
    assert(model_has_key(e_cc, "cc"@) <==> (m.cc@.len() > 0));
    assert(model_has_key(s11, "cc"@) <==> (m.cc@.len() > 0));
    assert(model_has_key(e_bcc, "bcc"@) <==> (m.bcc@.len() > 0));
    assert(model_has_key(s11, "bcc"@) <==> (m.bcc@.len() > 0));
    assert(model_has_key(e_subject, "subject"@) <==> (m.subject is Some));
    assert(model_has_key(s11, "subject"@) <==> (m.subject is Some));
    assert(model_has_key(e_id, "id"@) <==> (m.id is Some));
    assert(model_has_key(s11, "id"@) <==> (m.id is Some));
    assert(model_has_key(e_irt, "inReplyTo"@) <==> (m.in_reply_to@.len() > 0));
    assert(model_has_key(s11, "inReplyTo"@) <==> (m.in_reply_to@.len() > 0));
    assert(model_has_key(e_refs, "references"@) <==> (m.references@.len() > 0));
    assert(model_has_key(s11, "references"@) <==> (m.references@.len() > 0));
    assert(model_has_key(e_body, "body"@) <==> (m.body is Some));
    assert(model_has_key(s11, "body"@) <==> (m.body is Some));
}

/// The concise view of a message with no recipients omits the To, Cc and
/// Bcc lines entirely: it is exactly the subject line (when a subject is
/// present), the date line, the From line (when authors exist), and the
/// identifier line (when one exists).
pub proof fn lemma_concise_omits_empty_recipients(m: EmailMessage)
    requires
        m.to@.len() == 0,
        m.cc@.len() == 0,
        m.bcc@.len() == 0,
    ensures
        email_concise_spec(m) == subject_line(m.subject) + date_line(m.date) + joined_addr_line(
            "\tFrom: "@,
            m.from.deep_view(),
        ) + message_id_line(m.id),
{
    assert(m.to.deep_view().len() == 0);
    assert(m.cc.deep_view().len() == 0);
    assert(m.bcc.deep_view().len() == 0);
    assert(email_concise_spec(m) =~= subject_line(m.subject) + date_line(m.date)
        + joined_addr_line("\tFrom: "@, m.from.deep_view()) + message_id_line(m.id));
}

impl<'a> DisplayInline<'a, EmailMessage> {
    /// Renders the view to its string form.
    pub fn to_string(&self) -> (r: String)
        ensures
            r@ == email_inline_spec(*self.0),
    {
        let mut out = self.0.date.to_string();
        push_inline_from(&mut out, &self.0.from);
        match &self.0.subject {
            Option::Some(s) => {
                push_char(&mut out, ' ');
                out.append(s.as_str());
            },
            Option::None => {},
        }
        proof {
            assert(out@ =~= email_inline_spec(*self.0));
        }
        out
    }
}

impl<'a> DisplayOneliner<'a, EmailMessage> {
    /// Renders the view to its string form.
    pub fn to_string(&self) -> (r: String)
        ensures
            r@ == email_oneliner_spec(*self.0),
    {
        let mut out = DisplayInline(self.0).to_string();
        push_char(&mut out, '\n');
        proof {
            assert(out@ =~= email_oneliner_spec(*self.0));
        }
        out
    }
}

impl<'a> DisplayConcise<'a, EmailMessage> {
    /// Renders the view to its string form.
    #[verifier::rlimit(100)]
    pub fn to_string(&self) -> (r: String)
        ensures
            r@ == email_concise_spec(*self.0),
    {
        let m = self.0;
        let mut out = String::new();
        let ghost mut acc: Seq<char> = Seq::empty();
        match &m.subject {
            Option::Some(s) => {
                out.append("✉️  ");
                out.append(s.as_str());
                push_char(&mut out, '\n');
            },
            Option::None => {},
        }
        proof {
            acc = subject_line(m.subject);
            assert(out@ =~= acc);
        }
        out.append("\tDate: ");
        let d = m.date.inline().to_string();
        out.append(d.as_str());
        push_char(&mut out, '\n');
        proof {
            acc = acc + date_line(m.date);
            assert(out@ =~= acc);
        }
        if m.from.len() > 0 {
            out.append("\tFrom: ");
            push_joined_inline(&mut out, &m.from);
            push_char(&mut out, '\n');
        }
        proof {
            acc = acc + joined_addr_line("\tFrom: "@, m.from.deep_view());
            assert(out@ =~= acc);
        }
        if m.to.len() > 0 {
            out.append("\tTo: ");
            push_joined_inline(&mut out, &m.to);
            push_char(&mut out, '\n');
        }
        proof {
            acc = acc + joined_addr_line("\tTo: "@, m.to.deep_view());
            assert(out@ =~= acc);
        }
        if m.cc.len() > 0 {
            out.append("\tCc: ");
            push_joined_inline(&mut out, &m.cc);
            push_char(&mut out, '\n');
        }
        proof {
            acc = acc + joined_addr_line("\tCc: "@, m.cc.deep_view());
            assert(out@ =~= acc);
        }
        if m.bcc.len() > 0 {
            out.append("\tBcc: ");
            push_joined_inline(&mut out, &m.bcc);
            push_char(&mut out, '\n');
        }
        proof {
            acc = acc + joined_addr_line("\tBcc: "@, m.bcc.deep_view());
            assert(out@ =~= acc);
        }
        match &m.id {
            Option::Some(id) => {
                out.append("\tMessage-ID: ");
                let part = id.inline().to_string();
                out.append(part.as_str());
                push_char(&mut out, '\n');
            },
            Option::None => {},
        }
        proof {
            acc = acc + message_id_line(m.id);
            assert(out@ =~= acc);
            assert(acc == email_concise_spec(*self.0));
        }
        out
    }
}

impl<'a> DisplayDetailed<'a, EmailMessage> {
    /// Renders the view to its string form.
    pub fn to_string(&self) -> (r: String)
        ensures
            r@ == email_detailed_spec(*self.0),
    {
        let m = self.0;
        let mut out = String::new();
        match &m.subject {
            Option::Some(s) => {
                out.append("✉️  ");
                out.append(s.as_str());
                push_char(&mut out, '\n');
            },
            Option::None => {},
        }
        out.append("\tDate: ");
        let d = m.date.inline().to_string();
        out.append(d.as_str());
        push_char(&mut out, '\n');
        push_addr_lines(&mut out, "\tFrom: ", &m.from);
        push_addr_lines(&mut out, "\tTo: ", &m.to);
        push_addr_lines(&mut out, "\tCc: ", &m.cc);
        push_addr_lines(&mut out, "\tBcc: ", &m.bcc);
        match &m.id {
            Option::Some(id) => {
                out.append("\tMessage-ID: ");
                let part = id.inline().to_string();
                out.append(part.as_str());
                push_char(&mut out, '\n');
            },
            Option::None => {},
        }
        push_id_lines(&mut out, "\tIn-Reply-To: ", &m.in_reply_to);
        push_id_lines(&mut out, "\tReferences: ", &m.references);
        proof {
            assert(out@ =~= email_detailed_spec(*self.0));
        }
        out
    }
}

impl<'a> DisplayMime<'a, EmailMessage> {
    /// Renders the view to its string form.
    #[verifier::rlimit(100)]
    pub fn to_string(&self) -> (r: String)
        ensures
            r@ == email_mime_spec(*self.0),
    {
        let m = self.0;
        let mut out = String::from_str("Date: ");
        let d = m.date.mime().to_string();
        out.append(d.as_str());
        push_char(&mut out, '\n');
        let ghost mut acc: Seq<char> = "Date: "@ + datetime_mime_spec(m.date) + seq!['\n'];
        proof {
            assert(out@ =~= acc);
        }
        push_raw_addr_lines(&mut out, "From: ", &m.from);
        push_raw_addr_lines(&mut out, "To: ", &m.to);
        proof {
            acc = acc + labeled_lines("From: "@, m.from.deep_view()) + labeled_lines(
                "To: "@,
                m.to.deep_view(),
            );
            assert(out@ =~= acc);
        }
        push_raw_addr_lines(&mut out, "Cc: ", &m.cc);
        push_raw_addr_lines(&mut out, "Bcc: ", &m.bcc);
        proof {
            acc = acc + labeled_lines("Cc: "@, m.cc.deep_view()) + labeled_lines(
                "Bcc: "@,
                m.bcc.deep_view(),
            );
            assert(out@ =~= acc);
        }
        match &m.subject {
            Option::Some(s) => {
                out.append("Subject: ");
                out.append(s.as_str());
                push_char(&mut out, '\n');
            },
            Option::None => {},
        }
        match &m.id {
            Option::Some(id) => {
                out.append("Message-ID: <");
                out.append(id.as_str());
                out.append(">");
                push_char(&mut out, '\n');
            },
            Option::None => {},
        }
        proof {
            acc = acc + mime_opt_line("Subject: "@, m.subject) + mime_id_line(m.id);
            assert(out@ =~= acc);
        }
        push_id_lines(&mut out, "In-Reply-To: ", &m.in_reply_to);
        push_id_lines(&mut out, "References: ", &m.references);
        match &m.body {
            Option::Some(b) => {
                push_char(&mut out, '\n');
                out.append(b.as_str());
                push_char(&mut out, '\n');
            },
            Option::None => {},
        }
        proof {
            acc = acc + labeled_lines("In-Reply-To: "@, id_inline_views(m.in_reply_to.deep_view()))
                + labeled_lines("References: "@, id_inline_views(m.references.deep_view()))
                + mime_body_part(m.body);
            assert(out@ =~= acc);
            assert(acc == email_mime_spec(*self.0));
        }
        out
    }
}

impl<'a> DisplayJsonLd<'a, EmailMessage> {
    /// Renders the view to its string form: the compact JSON object and a
    /// trailing newline.
    #[verifier::rlimit(100)]
    pub fn to_string(&self) -> (r: String)
        ensures
            r@ == crate::json::render_object_spec(email_jsonld_spec(*self.0)) + seq!['\n'],
    {
        let obj = self.0.to_jsonld();
        let mut out = obj.render();
        push_char(&mut out, '\n');
        out
    }
}

} // verus!
