//! A case-normalized `local-part@domain` electronic mail address.

use vstd::prelude::*;
use vstd::string::{StrSliceExecFns, StringExecFns};

use crate::errors::FormatError;
use crate::formatters::DisplayInline;
use crate::text::{
    lemma_rfind_props, lower_of, lowercase, rfind, rfind_char, trim_str, trimmed,
};

verus! {

/// The content of the last `<...>` bracket pair of `t`, trimmed, when such a
/// pair exists with non-empty content.
pub open spec fn bracket_content(t: Seq<char>) -> Option<Seq<char>> {
    match rfind(t, '<') {
        Option::None => Option::None,
        Option::Some(start) => match rfind(t, '>') {
            Option::None => Option::None,
            Option::Some(end) => if start < end {
                let inner = trimmed(t.subrange(start + 1, end));
                if inner.len() > 0 {
                    Option::Some(inner)
                } else {
                    Option::None
                }
            } else {
                Option::None
            },
        },
    }
}

/// What address parsing returns: the lower-cased bracket content if present,
/// else the lower-cased trimmed text; nothing when the trimmed text is empty.
pub open spec fn parse_email_spec(s: Seq<char>) -> Option<Seq<char>> {
    let t = trimmed(s);
    match bracket_content(t) {
        Option::Some(inner) => Option::Some(lower_of(inner)),
        Option::None => if t.len() > 0 {
            Option::Some(lower_of(t))
        } else {
            Option::None
        },
    }
}

/// A case-normalized (lower-cased) `local-part@domain` string.
///
/// Built only by the canonicalizing `parse` constructor or by an adapter that
/// lower-cases what it assembles; never holds surrounding angle brackets or
/// leading or trailing whitespace of its input. Equality and ordering are
/// byte-wise on the normalized string.
#[derive(Debug, Clone, Default, Eq, Hash, PartialEq, PartialOrd, Ord)]
pub struct EmailAddress(pub(crate) String);

impl View for EmailAddress {
    type V = Seq<char>;

    closed spec fn view(&self) -> Seq<char> {
        self.0@
    }
}

impl DeepView for EmailAddress {
    type V = Seq<char>;

    open spec fn deep_view(&self) -> Seq<char> {
        self.view()
    }
}


impl EmailAddress {
    /// The normalized address text.
    pub fn as_str(&self) -> (r: &str)
        ensures
            r@ == self@,
    {
        self.0.as_str()
    }

    /// The single-line view of the address.
    pub fn inline(&self) -> (r: DisplayInline<'_, EmailAddress>)
        ensures
            r.0 == self,
    {
        DisplayInline(self)
    }

    /// Parses and canonicalizes address text.
    ///
    /// If the trimmed text holds a last `<...>` bracket pair, its (trimmed,
    /// non-empty) content is extracted; otherwise the whole trimmed text is
    /// used. The result is lower-cased. Fails exactly when the trimmed text
    /// is empty.
    pub fn parse(input: &str) -> (r: Result<EmailAddress, FormatError>)
        ensures
            match r {
                Ok(a) => parse_email_spec(input@) == Option::Some(a@),
                Err(e) => parse_email_spec(input@) is None && e == FormatError::Empty,
            },
    {
        let t = trim_str(input);
        proof {
            lemma_rfind_props(t@, '<');
            lemma_rfind_props(t@, '>');
        }
        if let Option::Some(start) = rfind_char(t, '<') {
            if let Option::Some(end) = rfind_char(t, '>') {
                if start < end {
                    let inner = trim_str(t.substring_char(start + 1, end));
                    if inner.unicode_len() > 0 {
                        return Ok(EmailAddress(lowercase(inner)));
                    }
                }
            }
        }
        if t.unicode_len() > 0 {
            Ok(EmailAddress(lowercase(t)))
        } else {
            Err(FormatError::Empty)
        }
    }

    /// Wraps text that is already in canonical (lower-cased, bracket-free)
    /// form; used by the adapters after they normalize themselves.
    pub(crate) fn new_canonical(s: String) -> (r: EmailAddress)
        ensures
            r@ == s@,
    {
        EmailAddress(s)
    }
}

/// The single-line rendering of an address: an envelope glyph and the text.
pub open spec fn email_address_inline(a: Seq<char>) -> Seq<char> {
    "📧 "@ + a
}

impl<'a> DisplayInline<'a, EmailAddress> {
    /// Renders the view to its string form.
    pub fn to_string(&self) -> (r: String)
        ensures
            r@ == email_address_inline(self.0@),
    {
        let mut out = String::from_str("📧 ");
        out.append(self.0.as_str());
        out
    }
}

} // verus!
