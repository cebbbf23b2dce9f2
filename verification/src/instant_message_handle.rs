//! A handle that identifies an instant message party: a telephone number or
//! an opaque username.

use vstd::prelude::*;
use vstd::string::{StrSliceExecFns, StringExecFns};

use crate::errors::FormatError;
use crate::formatters::DisplayInline;
use crate::phone_number::{phone_number_inline, PhoneNumber};
use crate::text::{trim_str, trimmed};

verus! {

/// A discriminated instant message handle.
#[derive(Debug, Clone, Eq, Hash, PartialEq, PartialOrd, Ord)]
pub enum InstantMessageHandle {
    Phone(PhoneNumber),
    Username(String),
}

/// The text of a handle: the number or the username.
pub open spec fn handle_view(h: InstantMessageHandle) -> Seq<char> {
    match h {
        InstantMessageHandle::Phone(p) => p@,
        InstantMessageHandle::Username(u) => u@,
    }
}

/// Whether the text begins with the `tel:` scheme.
pub open spec fn has_tel_prefix(t: Seq<char>) -> bool {
    t.len() >= 4 && t[0] == 't' && t[1] == 'e' && t[2] == 'l' && t[3] == ':'
}

impl InstantMessageHandle {
    /// The handle text.
    pub fn as_str(&self) -> (r: &str)
        ensures
            r@ == handle_view(*self),
    {
        match self {
            InstantMessageHandle::Phone(phone) => phone.as_str(),
            InstantMessageHandle::Username(user) => user.as_str(),
        }
    }

    /// The single-line view of the handle.
    pub fn inline(&self) -> (r: DisplayInline<'_, InstantMessageHandle>)
        ensures
            r.0 == self,
    {
        DisplayInline(self)
    }

    /// Parses handle text: a trimmed `tel:`-prefixed input becomes a phone
    /// handle with the prefix stripped; any other non-empty trimmed input
    /// becomes a username; empty input fails.
    pub fn parse(input: &str) -> (r: Result<InstantMessageHandle, FormatError>)
        ensures
            match r {
                Ok(h) => {
                    let t = trimmed(input@);
                    if has_tel_prefix(t) {
                        h matches InstantMessageHandle::Phone(p) && p@ == t.subrange(
                            4,
                            t.len() as int,
                        )
                    } else {
                        t.len() > 0 && (h matches InstantMessageHandle::Username(u) && u@ == t)
                    }
                },
                Err(e) => trimmed(input@).len() == 0 && e == FormatError::Empty,
            },
    {
        let t = trim_str(input);
        let n = t.unicode_len();
        if n >= 4 && t.get_char(0) == 't' && t.get_char(1) == 'e' && t.get_char(2) == 'l'
            && t.get_char(3) == ':' {
            let tail = t.substring_char(4, n);
            return Ok(InstantMessageHandle::Phone(PhoneNumber::new(String::from_str(tail))));
        }
        if n > 0 {
            Ok(InstantMessageHandle::Username(String::from_str(t)))
        } else {
            Err(FormatError::Empty)
        }
    }
}

/// The single-line rendering of a handle: the phone view for numbers, a card
/// glyph and the name for usernames.
pub open spec fn handle_inline(h: InstantMessageHandle) -> Seq<char> {
    match h {
        InstantMessageHandle::Phone(p) => phone_number_inline(p@),
        InstantMessageHandle::Username(u) => "📇 "@ + u@,
    }
}

impl<'a> DisplayInline<'a, InstantMessageHandle> {
    /// Renders the view to its string form.
    pub fn to_string(&self) -> (r: String)
        ensures
            r@ == handle_inline(*self.0),
    {
        match self.0 {
            InstantMessageHandle::Phone(phone) => phone.inline().to_string(),
            InstantMessageHandle::Username(user) => {
                let mut out = String::from_str("📇 ");
                out.append(user.as_str());
                out
            },
        }
    }
}

} // verus!
