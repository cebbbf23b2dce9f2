//! A person's name, as free text.

use vstd::prelude::*;
use vstd::string::{StrSliceExecFns, StringExecFns};

use crate::formatters::DisplayInline;

verus! {

/// A personal name, kept exactly as given.
#[derive(Clone, Debug, Default, Eq, Hash, Ord, PartialEq, PartialOrd)]
pub struct PersonName(pub(crate) String);

impl View for PersonName {
    type V = Seq<char>;

    closed spec fn view(&self) -> Seq<char> {
        self.0@
    }
}

impl DeepView for PersonName {
    type V = Seq<char>;

    open spec fn deep_view(&self) -> Seq<char> {
        self.view()
    }
}

impl PersonName {
    /// Wraps a name, without validation or normalization.
    pub fn new(input: String) -> (r: PersonName)
        ensures
            r@ == input@,
    {
        PersonName(input)
    }

    /// The name as an owned-string borrow.
    pub fn as_string(&self) -> (r: &String)
        ensures
            r@ == self@,
    {
        &self.0
    }

    /// The name text.
    pub fn as_str(&self) -> (r: &str)
        ensures
            r@ == self@,
    {
        self.0.as_str()
    }

    /// The single-line view of the name.
    pub fn inline(&self) -> (r: DisplayInline<'_, PersonName>)
        ensures
            r.0 == self,
    {
        DisplayInline(self)
    }
}

/// The single-line rendering of a name: a person glyph and the text.
pub open spec fn person_name_inline(n: Seq<char>) -> Seq<char> {
    "🧑 "@ + n
}

impl<'a> DisplayInline<'a, PersonName> {
    /// Renders the view to its string form.
    pub fn to_string(&self) -> (r: String)
        ensures
            r@ == person_name_inline(self.0@),
    {
        let mut out = String::from_str("🧑 ");
        out.append(self.0.as_str());
        out
    }
}

} // verus!
