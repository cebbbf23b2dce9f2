//! The canonical instant message record and its rendering views.

use vstd::prelude::*;
use vstd::string::{StrSliceExecFns, StringExecFns};

use crate::datetime::{datetime_inline_spec, iso_display_spec, DateTime};
use crate::formatters::{
    DisplayConcise, DisplayDetailed, DisplayInline, DisplayJsonLd, DisplayOneliner,
};
use crate::instant_message_handle::{
    handle_inline, handle_view, InstantMessageHandle,
};
use crate::instant_message_id::{instant_message_id_inline, InstantMessageId};
use crate::json::{fields_model, JsonData, JsonField, JsonObject};
use crate::text::push_char;

verus! {

/// The canonical instant message: one mandatory moment, a sender and a
/// receiver handle, an optional platform, an optional referenced message, and
/// the body text.
#[derive(Clone, Debug, Eq, Hash, Ord, PartialEq, PartialOrd)]
pub struct InstantMessage {
    pub id: Option<InstantMessageId>,
    pub date: DateTime,
    pub sender: InstantMessageHandle,
    pub receiver: InstantMessageHandle,
    pub platform: Option<String>,
    pub references: Option<InstantMessageId>,
    pub content: String,
}

/// The inline view: `date sender: receiver`, one line, no trailing newline.
pub open spec fn im_inline_spec(m: InstantMessage) -> Seq<char> {
    iso_display_spec(m.date) + seq![' '] + handle_view(m.sender) + seq![':', ' '] + handle_view(
        m.receiver,
    )
}

/// The oneliner view: the inline view plus a trailing newline.
pub open spec fn im_oneliner_spec(m: InstantMessage) -> Seq<char> {
    im_inline_spec(m) + seq!['\n']
}

/// The detailed view: an identifier line when present, then labeled lines
/// for date, sender and receiver, and platform and references when present.
pub open spec fn im_detailed_spec(m: InstantMessage) -> Seq<char> {
    (match m.id {
        Option::Some(id) => "📲: "@ + instant_message_id_inline(id@) + seq!['\n'],
        Option::None => Seq::empty(),
    }) + "\tDate: "@ + datetime_inline_spec(m.date) + seq!['\n'] + "\tSender: "@ + handle_inline(
        m.sender,
    ) + seq!['\n'] + "\tReceiver: "@ + handle_inline(m.receiver) + seq!['\n'] + (match m.platform {
        Option::Some(p) => "\tPlatform: "@ + p@ + seq!['\n'],
        Option::None => Seq::empty(),
    }) + (match m.references {
        Option::Some(r) => "\tReferences: "@ + instant_message_id_inline(r@) + seq!['\n'],
        Option::None => Seq::empty(),
    })
}

/// The JSON-LD object of an instant message: `@id` (a `mid:` reference or
/// the stable `_:message` placeholder), `@type`, the two handles as
/// `handle:` references, the platform only when present, and the content
/// under `body`.
pub open spec fn im_jsonld_spec(m: InstantMessage) -> Seq<(Seq<char>, JsonData)> {
    seq![
        ("@id"@, match m.id {
            Option::Some(id) => JsonData::Text("mid:"@ + id@),
            Option::None => JsonData::Text("_:message"@),
        }),
        ("@type"@, JsonData::Text("InstantMessage"@)),
        ("sender"@, JsonData::Text("handle:"@ + handle_view(m.sender))),
        ("receiver"@, JsonData::Text("handle:"@ + handle_view(m.receiver))),
    ] + (match m.platform {
        Option::Some(p) => seq![("platform"@, JsonData::Text(p@))],
        Option::None => Seq::empty(),
    }) + seq![("body"@, JsonData::Text(m.content@))]
}

impl InstantMessage {
    /// The single-line view of the message.
    pub fn inline(&self) -> (r: DisplayInline<'_, InstantMessage>)
        ensures
            r.0 == self,
    {
        DisplayInline(self)
    }

    /// The single-line view with a trailing newline.
    pub fn oneliner(&self) -> (r: DisplayOneliner<'_, InstantMessage>)
        ensures
            r.0 == self,
    {
        DisplayOneliner(self)
    }

    /// The multi-line labeled view with comma-joined repeated fields.
    pub fn concise(&self) -> (r: DisplayConcise<'_, InstantMessage>)
        ensures
            r.0 == self,
    {
        DisplayConcise(self)
    }

    /// The multi-line labeled view with one line per element.
    pub fn detailed(&self) -> (r: DisplayDetailed<'_, InstantMessage>)
        ensures
            r.0 == self,
    {
        DisplayDetailed(self)
    }

    /// The JSON-LD view.
    pub fn jsonld(&self) -> (r: DisplayJsonLd<'_, InstantMessage>)
        ensures
            r.0 == self,
    {
        DisplayJsonLd(self)
    }

    /// The default textual form: the oneliner view.
    pub fn to_string(&self) -> (r: String)
        ensures
            r@ == im_oneliner_spec(*self),
    {
        self.oneliner().to_string()
    }

    /// The message's identifier text, where it has one.
    pub fn id_str(&self) -> (r: Option<&str>)
        ensures
            match r {
                Option::Some(s) => self.id matches Option::Some(id) && s@ == id@,
                Option::None => self.id is None,
            },
    {
        match &self.id {
            Option::Some(id) => Option::Some(id.as_str()),
            Option::None => Option::None,
        }
    }

    /// The JSON-LD object of the message: the platform member is present
    /// exactly when the field is; every other member is always present.
    pub fn to_jsonld(&self) -> (r: JsonObject)
        ensures
            r@ == im_jsonld_spec(*self),
    {
        let mut fields: Vec<(String, JsonField)> = Vec::new();
        match &self.id {
            Option::Some(id) => {
                let mut s = String::from_str("mid:");
                s.append(id.as_str());
                fields.push((String::from_str("@id"), JsonField::Text(s)));
            },
            Option::None => {
                fields.push(
                    (String::from_str("@id"), JsonField::Text(String::from_str("_:message"))),
                );
            },
        }
        fields.push(
            (String::from_str("@type"), JsonField::Text(String::from_str("InstantMessage"))),
        );
        let mut s = String::from_str("handle:");
        s.append(self.sender.as_str());
        fields.push((String::from_str("sender"), JsonField::Text(s)));
        let mut t = String::from_str("handle:");
        t.append(self.receiver.as_str());
        fields.push((String::from_str("receiver"), JsonField::Text(t)));
        match &self.platform {
            Option::Some(p) => {
                fields.push((String::from_str("platform"), JsonField::Text(p.clone())));
            },
            Option::None => {},
        }
        fields.push((String::from_str("body"), JsonField::Text(self.content.clone())));
        let r = JsonObject { fields };
        proof {
            assert(fields_model(r.fields@) =~~= im_jsonld_spec(*self));
        }
        r
    }
}

impl<'a> DisplayInline<'a, InstantMessage> {
    /// Renders the view to its string form.
    pub fn to_string(&self) -> (r: String)
        ensures
            r@ == im_inline_spec(*self.0),
    {
        let mut out = self.0.date.to_string();
        push_char(&mut out, ' ');
        out.append(self.0.sender.as_str());
        push_char(&mut out, ':');
        push_char(&mut out, ' ');
        out.append(self.0.receiver.as_str());
        proof {
            assert(out@ =~= im_inline_spec(*self.0));
        }
        out
    }
}

impl<'a> DisplayOneliner<'a, InstantMessage> {
    /// Renders the view to its string form.
    pub fn to_string(&self) -> (r: String)
        ensures
            r@ == im_oneliner_spec(*self.0),
    {
        let mut out = DisplayInline(self.0).to_string();
        push_char(&mut out, '\n');
        proof {
            assert(out@ =~= im_oneliner_spec(*self.0));
        }
        out
    }
}

impl<'a> DisplayDetailed<'a, InstantMessage> {
    /// Renders the view to its string form.
    pub fn to_string(&self) -> (r: String)
        ensures
            r@ == im_detailed_spec(*self.0),
    {
        let m = self.0;
        let mut out = String::new();
        match &m.id {
            Option::Some(id) => {
                out.append("📲: ");
                let part = id.inline().to_string();
                out.append(part.as_str());
                push_char(&mut out, '\n');
            },
            Option::None => {},
        }
        out.append("\tDate: ");
        let d = m.date.inline().to_string();
        out.append(d.as_str());
        push_char(&mut out, '\n');
        out.append("\tSender: ");
        let s = m.sender.inline().to_string();
        out.append(s.as_str());
        push_char(&mut out, '\n');
        out.append("\tReceiver: ");
        let t = m.receiver.inline().to_string();
        out.append(t.as_str());
        push_char(&mut out, '\n');
        match &m.platform {
            Option::Some(p) => {
                out.append("\tPlatform: ");
                out.append(p.as_str());
                push_char(&mut out, '\n');
            },
            Option::None => {},
        }
        match &m.references {
            Option::Some(r) => {
                out.append("\tReferences: ");
                let part = r.inline().to_string();
                out.append(part.as_str());
                push_char(&mut out, '\n');
            },
            Option::None => {},
        }
        proof {
            assert(out@ =~= im_detailed_spec(*self.0));
        }
        out
    }
}

impl<'a> DisplayJsonLd<'a, InstantMessage> {
    /// Renders the view to its string form: the compact JSON object and a
    /// trailing newline.
    pub fn to_string(&self) -> (r: String)
        ensures
            r@ == crate::json::render_object_spec(im_jsonld_spec(*self.0)) + seq!['\n'],
    {
        let obj = self.0.to_jsonld();
        let mut out = obj.render();
        push_char(&mut out, '\n');
        out
    }
}

} // verus!
