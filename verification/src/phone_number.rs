//! A telephone number, as free text.

use vstd::prelude::*;
use vstd::string::{StrSliceExecFns, StringExecFns};

use crate::formatters::DisplayInline;

verus! {

/// A telephone number, kept exactly as given.
#[derive(Clone, Debug, Default, Eq, Hash, Ord, PartialEq, PartialOrd)]
pub struct PhoneNumber(pub(crate) String);

impl View for PhoneNumber {
    type V = Seq<char>;

    closed spec fn view(&self) -> Seq<char> {
        self.0@
    }
}

impl DeepView for PhoneNumber {
    type V = Seq<char>;

    open spec fn deep_view(&self) -> Seq<char> {
        self.view()
    }
}

impl PhoneNumber {
    /// Wraps a number, without validation or normalization.
    pub fn new(input: String) -> (r: PhoneNumber)
        ensures
            r@ == input@,
    {
        PhoneNumber(input)
    }

    /// The number text.
    pub fn as_str(&self) -> (r: &str)
        ensures
            r@ == self@,
    {
        self.0.as_str()
    }

    /// The single-line view of the number.
    pub fn inline(&self) -> (r: DisplayInline<'_, PhoneNumber>)
        ensures
            r.0 == self,
    {
        DisplayInline(self)
    }
}

/// The single-line rendering of a number: a telephone glyph and the text.
pub open spec fn phone_number_inline(n: Seq<char>) -> Seq<char> {
    "📞 "@ + n
}

impl<'a> DisplayInline<'a, PhoneNumber> {
    /// Renders the view to its string form.
    pub fn to_string(&self) -> (r: String)
        ensures
            r@ == phone_number_inline(self.0@),
    {
        let mut out = String::from_str("📞 ");
        out.append(self.0.as_str());
        out
    }
}

} // verus!
