//! Ontology descriptors used for schema introspection: classes, properties,
//! and language-tagged strings.

use vstd::prelude::*;

use std::collections::HashMap;

verus! {

/// A language tag for a literal.
#[derive(Debug, Default, Clone, PartialEq, Eq)]
pub enum LangTag {
    #[default]
    English,
    Other(String),
}

/// Strings by language; only English is carried so far.
#[derive(Debug, Default, Clone, PartialEq, Eq)]
pub struct LangStrings {
    pub en: String,
}

impl LangStrings {
    /// An empty set of strings.
    pub fn new() -> (r: LangStrings)
        ensures
            r.en@.len() == 0,
    {
        LangStrings { en: String::new() }
    }
}

/// A property descriptor of the ontology.
#[derive(Debug)]
pub struct Property {
    pub id: Option<String>,
    pub range: Option<String>,
    pub label: Option<LangStrings>,
    pub comment: Option<LangStrings>,
    pub see_also: Option<LangStrings>,
}

impl Property {
    /// A descriptor from its parts, kept as given.
    pub fn new(
        id: Option<String>,
        range: Option<String>,
        label: Option<LangStrings>,
        comment: Option<LangStrings>,
        see_also: Option<LangStrings>,
    ) -> (r: Property)
        ensures
            r.id == id,
            r.range == range,
            r.label == label,
            r.comment == comment,
            r.see_also == see_also,
    {
        Property { id, range, label, comment, see_also }
    }
}

/// A class descriptor of the ontology.
#[derive(Debug)]
pub struct Class {
    pub id: String,
    pub subclass_of: Option<String>,
    pub glyph: Option<String>,
    pub label: Option<LangStrings>,
    pub comment: Option<LangStrings>,
    pub see_also: Option<LangStrings>,
    pub properties: Option<HashMap<String, Property>>,
}

impl Class {
    /// A descriptor from its parts, kept as given.
    pub fn new(
        id: String,
        subclass_of: Option<String>,
        glyph: Option<String>,
        label: Option<LangStrings>,
        comment: Option<LangStrings>,
        see_also: Option<LangStrings>,
        properties: Option<HashMap<String, Property>>,
    ) -> (r: Class)
        ensures
            r.id == id,
            r.subclass_of == subclass_of,
            r.glyph == glyph,
            r.label == label,
            r.comment == comment,
            r.see_also == see_also,
            r.properties == properties,
    {
        Class { id, subclass_of, glyph, label, comment, see_also, properties }
    }
}

} // verus!
