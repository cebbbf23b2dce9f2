//! The tiered rendering views. Each record type offers a fixed set of views
//! (inline, oneliner, concise, detailed, mime, jsonld), each a borrowed
//! wrapper with a `to_string` method whose output grammar is part of the
//! library's external contract.

use vstd::prelude::*;

verus! {

/// Options a caller may pass to rendering front ends.
#[derive(Clone, Debug)]
pub struct DisplayConfig {
    pub color: bool,
    pub emojis: bool,
}

impl Default for DisplayConfig {
    fn default() -> (r: Self)
        ensures
            !r.color && !r.emojis,
    {
        DisplayConfig { color: false, emojis: false }
    }
}

/// The single-line view of a value, without a trailing newline.
#[derive(Debug)]
pub struct DisplayInline<'a, T>(pub &'a T);

/// The single-line view of a value, with a trailing newline.
#[derive(Debug)]
pub struct DisplayOneliner<'a, T>(pub &'a T);

/// The multi-line labeled view with comma-joined repeated fields.
#[derive(Debug)]
pub struct DisplayConcise<'a, T>(pub &'a T);

/// The multi-line labeled view with one line per element of repeated fields.
#[derive(Debug)]
pub struct DisplayDetailed<'a, T>(pub &'a T);

/// The Markdown view of a value.
#[derive(Debug)]
pub struct DisplayMarkdown<'a, T>(pub &'a T);

/// The RFC 5322 shaped header-block view.
#[derive(Debug)]
pub struct DisplayMime<'a, T>(pub &'a T);

/// The JSON-LD view: one JSON object per record.
#[derive(Debug)]
pub struct DisplayJsonLd<'a, T>(pub &'a T);

} // verus!
