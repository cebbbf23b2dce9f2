//! A person's age in whole years.

use vstd::prelude::*;
use vstd::string::StringExecFns;

use crate::formatters::DisplayInline;
use crate::text::{dec_str, push_u64};

verus! {

/// An age in whole years.
#[derive(Clone, Copy, Debug, Default, Eq, Hash, Ord, PartialEq, PartialOrd)]
pub struct Age(pub(crate) u8);

impl View for Age {
    type V = nat;

    closed spec fn view(&self) -> nat {
        self.0 as nat
    }
}

impl Age {
    /// Wraps a number of whole years.
    pub fn new(years: u8) -> (r: Age)
        ensures
            r@ == years as nat,
    {
        Age(years)
    }

    /// The age as a plain number.
    pub fn as_usize(&self) -> (r: usize)
        ensures
            r as nat == self@,
            r <= 255,
    {
        self.0 as usize
    }

    /// The single-line view of the age.
    pub fn inline(&self) -> (r: DisplayInline<'_, Age>)
        ensures
            r.0 == self,
    {
        DisplayInline(self)
    }
}

/// The single-line rendering of an age: a cake glyph, the years, and `y`.
pub open spec fn age_inline(years: nat) -> Seq<char> {
    "🎂 "@ + dec_str(years) + "y"@
}

impl<'a> DisplayInline<'a, Age> {
    /// Renders the view to its string form.
    pub fn to_string(&self) -> (r: String)
        ensures
            r@ == age_inline(self.0@),
    {
        let mut out = String::from_str("🎂 ");
        push_u64(&mut out, self.0.0 as u64);
        out.append("y");
        proof {
            assert(out@ =~= age_inline(self.0@));
        }
        out
    }
}

} // verus!
