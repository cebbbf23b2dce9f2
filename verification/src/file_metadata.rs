//! Metadata of a file-system entry and its rendering views.

use vstd::prelude::*;
use vstd::string::{StrSliceExecFns, StringExecFns};

use crate::datetime::{datetime_inline_spec, iso_display_spec, DateTime};
use crate::formatters::{
    DisplayConcise, DisplayDetailed, DisplayInline, DisplayJsonLd, DisplayOneliner,
};
use crate::imap::opt_string_view;
use crate::json::{fields_model, JsonData, JsonField, JsonObject};
use crate::text::{dec_str, push_u64};
use crate::traits::ThingLike;
use crate::Name;

verus! {

/// The kind of a file-system entry.
#[derive(Debug, Clone, Default, Hash, Eq, PartialEq, PartialOrd, Ord)]
pub enum FileType {
    #[default]
    Regular,
    Directory { children: Vec<String> },
    Symlink { target: String },
}

/// Metadata of one file-system entry.
#[derive(Debug, Clone, Default, Hash, Eq, PartialEq, PartialOrd, Ord)]
pub struct FileMetadata {
    pub id: Option<String>,
    pub modification_date: Option<DateTime>,
    pub size: Option<usize>,
    pub owner: Option<String>,
    pub group: Option<String>,
    pub filetype: FileType,
}

/// The identifier shown by the textual views: the id or a placeholder.
pub open spec fn fm_shown_id(id: Option<String>) -> Seq<char> {
    match id {
        Option::Some(s) => s@,
        Option::None => "<unknown file>"@,
    }
}

/// The type word of the textual views.
pub open spec fn fm_type_word(t: FileType) -> Seq<char> {
    match t {
        FileType::Regular => "regular"@,
        FileType::Directory { .. } => "directory"@,
        FileType::Symlink { .. } => "symlink"@,
    }
}

/// The inline view: a page glyph and the shown identifier.
pub open spec fn fm_inline_spec(m: FileMetadata) -> Seq<char> {
    "📄 "@ + fm_shown_id(m.id)
}

/// The oneliner view: the inline view, the type word, and the size and
/// modification moment where present.
pub open spec fn fm_oneliner_spec(m: FileMetadata) -> Seq<char> {
    fm_inline_spec(m) + " is a "@ + fm_type_word(m.filetype) + " file"@ + (match m.size {
        Option::Some(n) => " with size "@ + dec_str(n as nat),
        Option::None => Seq::empty(),
    }) + (match m.modification_date {
        Option::Some(d) => ", modified at "@ + datetime_inline_spec(d),
        Option::None => Seq::empty(),
    })
}

/// The JSON-LD object of the metadata: `@type`, `@id` (the identifier or the
/// stable `_:file-metadata` placeholder), the optional fields only when
/// present, the type word, and the directory children or link target where
/// the kind carries them.
pub open spec fn fm_jsonld_spec(m: FileMetadata) -> Seq<(Seq<char>, JsonData)> {
    seq![
        ("@type"@, JsonData::Text("FileMetadata"@)),
        ("@id"@, match m.id {
            Option::Some(id) => JsonData::Text(id@),
            Option::None => JsonData::Text("_:file-metadata"@),
        }),
    ] + (match m.modification_date {
        Option::Some(d) => seq![("modification_date"@, JsonData::Text(iso_display_spec(d)))],
        Option::None => Seq::empty(),
    }) + (match m.size {
        Option::Some(n) => seq![("size"@, JsonData::Count(n as nat))],
        Option::None => Seq::empty(),
    }) + (match m.owner {
        Option::Some(o) => seq![("owner"@, JsonData::Text(o@))],
        Option::None => Seq::empty(),
    }) + (match m.group {
        Option::Some(g) => seq![("group"@, JsonData::Text(g@))],
        Option::None => Seq::empty(),
    }) + (match m.filetype {
        FileType::Regular => seq![("filetype"@, JsonData::Text("regular"@))],
        FileType::Directory { children } => seq![
            ("filetype"@, JsonData::Text("directory"@)),
            ("children"@, JsonData::Items(children.deep_view())),
        ],
        FileType::Symlink { target } => seq![
            ("filetype"@, JsonData::Text("symlink"@)),
            ("target"@, JsonData::Text(target@)),
        ],
    })
}

impl FileMetadata {
    /// The single-line view of the metadata.
    pub fn inline(&self) -> (r: DisplayInline<'_, FileMetadata>)
        ensures
            r.0 == self,
    {
        DisplayInline(self)
    }

    /// The single-line view with the type, size and modification moment.
    pub fn oneliner(&self) -> (r: DisplayOneliner<'_, FileMetadata>)
        ensures
            r.0 == self,
    {
        DisplayOneliner(self)
    }

    /// The multi-line labeled view with comma-joined repeated fields.
    pub fn concise(&self) -> (r: DisplayConcise<'_, FileMetadata>)
        ensures
            r.0 == self,
    {
        DisplayConcise(self)
    }

    /// The multi-line labeled view with one line per element.
    pub fn detailed(&self) -> (r: DisplayDetailed<'_, FileMetadata>)
        ensures
            r.0 == self,
    {
        DisplayDetailed(self)
    }

    /// The JSON-LD view.
    pub fn jsonld(&self) -> (r: DisplayJsonLd<'_, FileMetadata>)
        ensures
            r.0 == self,
    {
        DisplayJsonLd(self)
    }

    /// The record's identifier text, where it has one.
    pub fn id_str(&self) -> (r: Option<&str>)
        ensures
            match r {
                Option::Some(s) => self.id matches Option::Some(t) && s@ == t@,
                Option::None => self.id is None,
            },
    {
        match &self.id {
            Option::Some(s) => Option::Some(s.as_str()),
            Option::None => Option::None,
        }
    }

    /// The JSON-LD object of the metadata: absent optional fields are
    /// omitted entirely.
    pub fn to_jsonld(&self) -> (r: JsonObject)
        ensures
            r@ == fm_jsonld_spec(*self),
    {
        let mut fields: Vec<(String, JsonField)> = Vec::new();
        fields.push(
            (String::from_str("@type"), JsonField::Text(String::from_str("FileMetadata"))),
        );
        match &self.id {
            Option::Some(id) => {
                fields.push((String::from_str("@id"), JsonField::Text(id.clone())));
            },
            Option::None => {
                fields.push(
                    (
                        String::from_str("@id"),
                        JsonField::Text(String::from_str("_:file-metadata")),
                    ),
                );
            },
        }
        match &self.modification_date {
            Option::Some(d) => {
                fields.push((String::from_str("modification_date"), JsonField::Text(d.to_string())));
            },
            Option::None => {},
        }
        match &self.size {
            Option::Some(n) => {
                fields.push((String::from_str("size"), JsonField::Count(*n as u64)));
            },
            Option::None => {},
        }
        match &self.owner {
            Option::Some(o) => {
                fields.push((String::from_str("owner"), JsonField::Text(o.clone())));
            },
            Option::None => {},
        }
        match &self.group {
            Option::Some(g) => {
                fields.push((String::from_str("group"), JsonField::Text(g.clone())));
            },
            Option::None => {},
        }
        match &self.filetype {
            FileType::Regular => {
                fields.push(
                    (String::from_str("filetype"), JsonField::Text(String::from_str("regular"))),
                );
            },
            FileType::Directory { children } => {
                fields.push(
                    (String::from_str("filetype"), JsonField::Text(String::from_str("directory"))),
                );
                fields.push((String::from_str("children"), JsonField::Items(children.clone())));
            },
            FileType::Symlink { target } => {
                fields.push(
                    (String::from_str("filetype"), JsonField::Text(String::from_str("symlink"))),
                );
                fields.push((String::from_str("target"), JsonField::Text(target.clone())));
            },
        }
        let r = JsonObject { fields };
        proof {
            assert(fields_model(r.fields@) =~~= fm_jsonld_spec(*self));
        }
        r
    }
}

impl<'a> DisplayInline<'a, FileMetadata> {
    /// Renders the view to its string form.
    pub fn to_string(&self) -> (r: String)
        ensures
            r@ == fm_inline_spec(*self.0),
    {
        let mut out = String::from_str("📄 ");
        match &self.0.id {
            Option::Some(id) => {
                out.append(id.as_str());
            },
            Option::None => {
                out.append("<unknown file>");
            },
        }
        out
    }
}

impl<'a> DisplayOneliner<'a, FileMetadata> {
    /// Renders the view to its string form.
    pub fn to_string(&self) -> (r: String)
        ensures
            r@ == fm_oneliner_spec(*self.0),
    {
        let m = self.0;
        let mut out = DisplayInline(m).to_string();
        out.append(" is a ");
        match &m.filetype {
            FileType::Regular => {
                out.append("regular");
            },
            FileType::Directory { .. } => {
                out.append("directory");
            },
            FileType::Symlink { .. } => {
                out.append("symlink");
            },
        }
        out.append(" file");
        match &m.size {
            Option::Some(n) => {
                out.append(" with size ");
                push_u64(&mut out, *n as u64);
            },
            Option::None => {},
        }
        match &m.modification_date {
            Option::Some(d) => {
                out.append(", modified at ");
                let part = d.inline().to_string();
                out.append(part.as_str());
            },
            Option::None => {},
        }
        proof {
            assert(out@ =~= fm_oneliner_spec(*self.0));
        }
        out
    }
}

impl<'a> DisplayJsonLd<'a, FileMetadata> {
    /// Renders the view to its string form: the compact JSON object and a
    /// trailing newline.
    pub fn to_string(&self) -> (r: String)
        ensures
            r@ == crate::json::render_object_spec(fm_jsonld_spec(*self.0)) + seq!['\n'],
    {
        let obj = self.0.to_jsonld();
        let mut out = obj.render();
        crate::text::push_char(&mut out, '\n');
        out
    }
}

impl ThingLike for FileMetadata {
    fn id(&self) -> Option<&str> {
        self.id_str()
    }

    fn name(&self) -> Option<&Name> {
        Option::None
    }
}

} // verus!
