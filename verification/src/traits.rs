//! Behaviour common to every canonical record.

use vstd::prelude::*;

use crate::Name;

verus! {

/// A thing of the knowledge graph: it may carry an identifier and a name.
pub trait ThingLike {
    /// The record's identifier, where it has one.
    fn id(&self) -> Option<&str>;

    /// The record's name, where it has one.
    fn name(&self) -> Option<&Name>;
}

} // verus!
