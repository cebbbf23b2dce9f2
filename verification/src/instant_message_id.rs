//! An instant message identifier.

use vstd::prelude::*;
use vstd::string::{StrSliceExecFns, StringExecFns};

use crate::formatters::DisplayInline;

verus! {

/// An instant message identifier, kept exactly as given.
#[derive(Clone, Debug, Default, Eq, Hash, Ord, PartialEq, PartialOrd)]
pub struct InstantMessageId(pub(crate) String);

impl View for InstantMessageId {
    type V = Seq<char>;

    closed spec fn view(&self) -> Seq<char> {
        self.0@
    }
}

impl InstantMessageId {
    /// Wraps an identifier, without validation.
    pub fn new(input: String) -> (r: InstantMessageId)
        ensures
            r@ == input@,
    {
        InstantMessageId(input)
    }

    /// The identifier text.
    pub fn as_str(&self) -> (r: &str)
        ensures
            r@ == self@,
    {
        self.0.as_str()
    }

    /// The single-line view of the identifier.
    pub fn inline(&self) -> (r: DisplayInline<'_, InstantMessageId>)
        ensures
            r.0 == self,
    {
        DisplayInline(self)
    }
}

/// The single-line rendering of an identifier: an id glyph and the text.
pub open spec fn instant_message_id_inline(id: Seq<char>) -> Seq<char> {
    "🆔 "@ + id
}

impl<'a> DisplayInline<'a, InstantMessageId> {
    /// Renders the view to its string form.
    pub fn to_string(&self) -> (r: String)
        ensures
            r@ == instant_message_id_inline(self.0@),
    {
        let mut out = String::from_str("🆔 ");
        out.append(self.0.as_str());
        out
    }
}

} // verus!
