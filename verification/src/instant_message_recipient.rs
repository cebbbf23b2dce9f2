//! The recipient of an instant message.

use vstd::prelude::*;

use crate::formatters::DisplayInline;
use crate::instant_message_handle::{handle_inline, handle_view, InstantMessageHandle};

verus! {

/// The kind of party an instant message can be addressed to.
#[derive(Debug, Clone, Eq, Hash, PartialEq, PartialOrd, Ord)]
pub enum InstantMessageRecipientType {
    Direct,
    Group,
    Channel,
}

/// An instant message recipient; only direct recipients exist so far.
#[derive(Debug, Clone, Eq, Hash, PartialEq, PartialOrd, Ord)]
pub enum InstantMessageRecipient {
    Direct(InstantMessageHandle),
}

impl InstantMessageRecipient {
    /// The recipient's handle text.
    pub fn as_str(&self) -> (r: &str)
        ensures
            (*self matches InstantMessageRecipient::Direct(h) && r@ == handle_view(h)),
    {
        match self {
            InstantMessageRecipient::Direct(handle) => handle.as_str(),
        }
    }

    /// The single-line view of the recipient.
    pub fn inline(&self) -> (r: DisplayInline<'_, InstantMessageRecipient>)
        ensures
            r.0 == self,
    {
        DisplayInline(self)
    }

    /// The kind of the recipient.
    pub fn kind(&self) -> (r: InstantMessageRecipientType)
        ensures
            r == InstantMessageRecipientType::Direct,
    {
        match self {
            InstantMessageRecipient::Direct(_) => InstantMessageRecipientType::Direct,
        }
    }
}

impl<'a> DisplayInline<'a, InstantMessageRecipient> {
    /// Renders the view to its string form.
    pub fn to_string(&self) -> (r: String)
        ensures
            (*self.0 matches InstantMessageRecipient::Direct(h) && r@ == handle_inline(h)),
    {
        match self.0 {
            InstantMessageRecipient::Direct(direct) => direct.inline().to_string(),
        }
    }
}

} // verus!
