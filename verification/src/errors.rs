//! Typed failures for parsing and normalization.
//!
//! Two severity tiers exist: a hard-fail condition (a missing or unparsable
//! mandatory field, such as an email's date) aborts a whole conversion, while
//! soft-fail conditions (an unparsable entry inside a repeated field) only
//! drop that entry.

use vstd::prelude::*;

verus! {

/// Why a piece of text is not a valid instance of a scalar domain type.
#[derive(Clone, Copy, Debug, PartialEq, Eq, Structural)]
pub enum FormatError {
    /// The input was empty after trimming surrounding whitespace.
    Empty,
    /// The input was not delimited by angle brackets, which the grammar of
    /// the field requires.
    MissingBrackets,
    /// The input does not denote a valid moment in time.
    InvalidDate,
}

impl FormatError {
    /// A short human-readable description of the failure.
    pub fn message(&self) -> (r: &'static str)
        ensures
            *self == FormatError::Empty ==> r@ == "empty value after trimming"@,
            *self == FormatError::MissingBrackets ==> r@ == "missing surrounding angle brackets"@,
            *self == FormatError::InvalidDate ==> r@ == "invalid date"@,
    {
        match self {
            FormatError::Empty => "empty value after trimming",
            FormatError::MissingBrackets => "missing surrounding angle brackets",
            FormatError::InvalidDate => "invalid date",
        }
    }
}

/// Why a third-party representation could not be normalized into a canonical
/// record. Only mandatory (hard-fail) fields produce these.
#[derive(Clone, Copy, Debug, PartialEq, Eq, Structural)]
pub enum AdapterError {
    /// The source carries no date at all; a canonical message requires one.
    MissingDate,
    /// The source carries a date that could not be understood.
    InvalidDate,
}

impl AdapterError {
    /// A short human-readable description of the failure.
    pub fn message(&self) -> (r: &'static str)
        ensures
            *self == AdapterError::MissingDate ==> r@ == "missing mandatory date"@,
            *self == AdapterError::InvalidDate ==> r@ == "invalid mandatory date"@,
    {
        match self {
            AdapterError::MissingDate => "missing mandatory date",
            AdapterError::InvalidDate => "invalid mandatory date",
        }
    }
}

/// Why a `data:` URL could not be decoded back into a binary payload.
#[derive(Clone, Copy, Debug, PartialEq, Eq, Structural)]
pub enum DataUrlError {
    /// The text does not start with the `data:` scheme prefix.
    MissingPrefix,
    /// The text has no comma separating the content type from the payload.
    MissingSeparator,
    /// The payload segment is not valid standard base64.
    InvalidBase64,
}

impl DataUrlError {
    /// A short human-readable description of the failure.
    pub fn message(&self) -> (r: &'static str)
        ensures
            *self == DataUrlError::MissingPrefix ==> r@ == "missing data: prefix"@,
            *self == DataUrlError::MissingSeparator ==> r@ == "missing comma separator"@,
            *self == DataUrlError::InvalidBase64 ==> r@ == "invalid base64 payload"@,
    {
        match self {
            DataUrlError::MissingPrefix => "missing data: prefix",
            DataUrlError::MissingSeparator => "missing comma separator",
            DataUrlError::InvalidBase64 => "invalid base64 payload",
        }
    }
}

} // verus!
