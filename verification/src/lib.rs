//! A personal knowledge-graph data model: canonical record types for
//! communication (email and instant messages), people and files, together
//! with the normalization of third-party representations into those records
//! and a fixed set of textual and structured-data views over them.

use vstd::prelude::*;

pub mod age;
pub mod audio_frame;
pub mod data_url;
pub mod datetime;
pub mod duration;
pub mod email_address;
pub mod email_address_list;
pub mod email_message;
pub mod email_message_id;
pub mod errors;
pub mod file;
pub mod file_metadata;
pub mod formatters;
pub mod headers;
pub mod image;
pub mod imap;
pub mod instant_message;
pub mod instant_message_handle;
pub mod instant_message_id;
pub mod instant_message_recipient;
pub mod json;
pub mod meta;
pub mod mime;
pub mod person;
pub mod person_name;
pub mod phone_number;
pub mod text;
pub mod traits;

verus! {

/// A human-readable name, as free text.
pub type Name = String;

} // verus!
