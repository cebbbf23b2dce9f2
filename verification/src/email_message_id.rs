//! A message identifier, stored without its surrounding angle brackets.

use vstd::prelude::*;
use vstd::string::{StrSliceExecFns, StringExecFns};

use crate::errors::FormatError;
use crate::formatters::DisplayInline;
use crate::text::{trim_str, trimmed};

verus! {

/// A message identifier stored without surrounding angle brackets; the MIME
/// rendering view re-adds them.
///
/// The parsing constructor rejects input that is not bracket-delimited;
/// construction from an already-bare string performs no validation. This
/// asymmetry is deliberate: message identifiers have a strict wire grammar,
/// while free-text address headers do not.
#[derive(Clone, Debug, Default, Eq, Hash, Ord, PartialEq, PartialOrd)]
pub struct EmailMessageId(pub(crate) String);

impl View for EmailMessageId {
    type V = Seq<char>;

    closed spec fn view(&self) -> Seq<char> {
        self.0@
    }
}

impl DeepView for EmailMessageId {
    type V = Seq<char>;

    open spec fn deep_view(&self) -> Seq<char> {
        self.view()
    }
}


/// What identifier parsing returns: the bare content of a bracket-delimited
/// trimmed input, and nothing otherwise.
pub open spec fn parse_message_id_spec(s: Seq<char>) -> Option<Seq<char>> {
    let t = trimmed(s);
    if t.len() > 2 && t[0] == '<' && t.last() == '>' {
        Option::Some(t.subrange(1, t.len() - 1))
    } else {
        Option::None
    }
}

impl EmailMessageId {
    /// The bare identifier text, without brackets.
    pub fn as_str(&self) -> (r: &str)
        ensures
            r@ == self@,
    {
        self.0.as_str()
    }

    /// The single-line view of the identifier.
    pub fn inline(&self) -> (r: DisplayInline<'_, EmailMessageId>)
        ensures
            r.0 == self,
    {
        DisplayInline(self)
    }

    /// Parses a textual `Message-ID` header value.
    ///
    /// Succeeds exactly when the trimmed input starts with `<`, ends with
    /// `>`, and holds something between them; the brackets are stripped.
    pub fn parse(input: &str) -> (r: Result<EmailMessageId, FormatError>)
        ensures
            match r {
                Ok(id) => parse_message_id_spec(input@) == Option::Some(id@),
                Err(e) => parse_message_id_spec(input@) is None && (e == (
                if trimmed(input@).len() == 0 {
                    FormatError::Empty
                } else {
                    FormatError::MissingBrackets
                })),
            },
    {
        let t = trim_str(input);
        let n = t.unicode_len();
        if n == 0 {
            return Err(FormatError::Empty);
        }
        if n > 2 && t.get_char(0) == '<' && t.get_char(n - 1) == '>' {
            let inner = t.substring_char(1, n - 1);
            return Ok(EmailMessageId(String::from_str(inner)));
        }
        Err(FormatError::MissingBrackets)
    }
}

impl EmailMessageId {
    /// Wraps an already-bare identifier, without validation; the caller
    /// vouches that the upstream source guarantees well-formedness.
    pub fn new(input: String) -> (r: EmailMessageId)
        ensures
            r@ == input@,
    {
        EmailMessageId(input)
    }
}

/// The single-line rendering of an identifier: an id glyph and the bare text.
pub open spec fn email_message_id_inline(id: Seq<char>) -> Seq<char> {
    "🆔 "@ + id
}

impl<'a> DisplayInline<'a, EmailMessageId> {
    /// Renders the view to its string form.
    pub fn to_string(&self) -> (r: String)
        ensures
            r@ == email_message_id_inline(self.0@),
    {
        let mut out = String::from_str("🆔 ");
        out.append(self.0.as_str());
        out
    }
}

} // verus!
