//! The canonical file record: a plain attribute container whose binary
//! payload packs into a `data:` URL form.

use vstd::prelude::*;
use vstd::string::{StrSliceExecFns, StringExecFns};
use vstd::utf8::encode_utf8;

use crate::data_url::{
    b64_decode, b64_encode, base64_of, data_url_accepted, data_url_parses_to, data_url_split,
    file_data_url_rel, find, find_char, has_base64_suffix, has_data_prefix, lemma_find_hit,
    lemma_find_props, opt_ct,
};
use crate::errors::DataUrlError;
use crate::imap::opt_string_view;
use crate::json::{fields_model, JsonData, JsonField, JsonObject};
use crate::traits::ThingLike;
use crate::Name;

verus! {

/// A file with a size.
pub trait FileLike: ThingLike {
    /// The file's size in bytes.
    fn size(&self) -> u64;
}

/// A binary payload with an optional content type.
#[derive(Debug, Clone, Default, Eq, Hash, PartialEq, PartialOrd, Ord)]
pub struct FileData {
    pub content_type: Option<String>,
    pub data: Vec<u8>,
}

impl FileData {
    /// Whether the payload holds no bytes.
    pub fn is_empty(&self) -> (r: bool)
        ensures
            r == (self.data@.len() == 0),
    {
        self.data.len() == 0
    }
}

/// The canonical file record.
#[derive(Debug, Clone, Default, Eq, Hash, PartialEq, PartialOrd, Ord)]
pub struct File {
    pub name: Option<Name>,
    pub id: Option<String>,
    pub size: u64,
    pub content_type: Option<String>,
    pub data: FileData,
}

/// Serializes a payload to its `data:` URL form, exactly as
/// `file_data_url_rel` says: a typed payload carries its type and base64
/// data; a typeless payload is kept verbatim as `text/plain` when its bytes
/// are well-formed UTF-8, else base64 under `application/octet-stream`.
pub fn serialize_data(d: &FileData) -> (r: String)
    requires
        d.data@.len() * 4 <= usize::MAX,
    ensures
        file_data_url_rel(opt_string_view(d.content_type), d.data@, r@),
{
    match &d.content_type {
        Option::Some(ct) => {
            let mut out = String::from_str("data:");
            out.append(ct.as_str());
            out.append(";base64,");
            let b64 = b64_encode(d.data.as_slice());
            out.append(b64.as_str());
            proof {
                assert(out@ =~= "data:"@ + ct@ + ";base64,"@ + base64_of(d.data@));
            }
            out
        },
        Option::None => {
            match crate::text::bytes_as_utf8(d.data.as_slice()) {
                Option::Some(text) => {
                    let mut out = String::from_str("data:text/plain;charset=utf-8,");
                    out.append(text);
                    proof {
                        assert(encode_utf8(text@) == d.data@);
                        assert(out@ =~= "data:text/plain;charset=utf-8,"@ + text@);
                    }
                    out
                },
                Option::None => {
                    let mut out = String::from_str("data:application/octet-stream;base64,");
                    let b64 = b64_encode(d.data.as_slice());
                    out.append(b64.as_str());
                    proof {
                        assert(out@ =~= "data:application/octet-stream;base64,"@ + base64_of(
                            d.data@,
                        ));
                    }
                    out
                },
            }
        },
    }
}

/// Deserializes a `data:` URL back into a payload, exactly as
/// `data_url_parses_to` says; each failure names what was malformed.
pub fn deserialize_data(s: &str) -> (r: Result<FileData, DataUrlError>)
    ensures
        r is Ok <==> data_url_accepted(s@),
        match r {
            Ok(d) => data_url_parses_to(s@, opt_string_view(d.content_type), d.data@),
            Err(e) => {
                &&& (e == DataUrlError::MissingPrefix <==> !has_data_prefix(s@))
                &&& (e == DataUrlError::MissingSeparator <==> has_data_prefix(s@)
                    && data_url_split(s@) is None)
                &&& (e == DataUrlError::InvalidBase64 <==> data_url_split(s@) is Some)
            },
        },
{
    let n = s.unicode_len();
    if !(n >= 5 && s.get_char(0) == 'd' && s.get_char(1) == 'a' && s.get_char(2) == 't'
        && s.get_char(3) == 'a' && s.get_char(4) == ':') {
        return Err(DataUrlError::MissingPrefix);
    }
    let rest = s.substring_char(5, n);
    let m = n - 5;
    match find_char(rest, ',') {
        Option::None => Err(DataUrlError::MissingSeparator),
        Option::Some(i) => {
            proof {
                lemma_find_props(rest@, ',');
            }
            let meta = rest.substring_char(0, i);
            let payload = rest.substring_char(i + 1, m);
            let ml = meta.unicode_len();
            if ml >= 7 && meta.get_char(ml - 7) == ';' && meta.get_char(ml - 6) == 'b'
                && meta.get_char(ml - 5) == 'a' && meta.get_char(ml - 4) == 's' && meta.get_char(
                ml - 3,
            ) == 'e' && meta.get_char(ml - 2) == '6' && meta.get_char(ml - 1) == '4' {
                match b64_decode(payload) {
                    Option::None => Err(DataUrlError::InvalidBase64),
                    Option::Some(bytes) => {
                        let ct_part = meta.substring_char(0, ml - 7);
                        let content_type = if ct_part.unicode_len() > 0 {
                            Option::Some(String::from_str(ct_part))
                        } else {
                            Option::None
                        };
                        Ok(FileData { content_type, data: bytes })
                    },
                }
            } else {
                let content_type = if ml > 0 {
                    Option::Some(String::from_str(meta))
                } else {
                    Option::None
                };
                let data = payload.as_bytes_vec();
                Ok(FileData { content_type, data })
            }
        },
    }
}

/// Round trip: a data URL built from a payload is accepted again, so
/// deserialization cannot fail on it. A content type containing a comma is
/// the one exception the framing cannot carry, so it is left out.
#[verifier::rlimit(100)]
pub proof fn lemma_data_url_accepted(ct: Option<Seq<char>>, data: Seq<u8>, url: Seq<char>)
    requires
        ct matches Option::Some(c) ==> c.len() > 0 && find(c, ',') is None,
        file_data_url_rel(ct, data, url),
    ensures
        data_url_accepted(url),
{
    reveal_strlit("data:");
    reveal_strlit(";base64,");
    reveal_strlit("data:text/plain;charset=utf-8,");
    reveal_strlit("data:application/octet-stream;base64,");
    lemma_data_url_shape(ct, data, url);
}

/// The split of a serialized data URL: its content-type segment and payload.
#[verifier::rlimit(100)]
proof fn lemma_data_url_shape(ct: Option<Seq<char>>, data: Seq<u8>, url: Seq<char>)
    requires
        ct matches Option::Some(c) ==> c.len() > 0 && find(c, ',') is None,
        file_data_url_rel(ct, data, url),
    ensures
        match ct {
            Option::Some(c) => data_url_split(url) == Option::Some(
                (c + ";base64,"@.subrange(0, 7), base64_of(data)),
            ) && has_base64_suffix(c + ";base64,"@.subrange(0, 7)),
            Option::None => data_url_split(url) matches Option::Some((meta, payload)) && (
            if has_base64_suffix(meta) {
                payload == base64_of(data) && meta.subrange(0, meta.len() - 7)
                    == "application/octet-stream"@
            } else {
                encode_utf8(payload) == data
            }),
        },
{
    reveal_strlit("data:");
    reveal_strlit(";base64,");
    reveal_strlit("data:text/plain;charset=utf-8,");
    reveal_strlit("data:application/octet-stream;base64,");
    reveal_strlit("application/octet-stream");
    match ct {
        Option::Some(c) => {
            let b64 = base64_of(data);
            assert(url == "data:"@ + c + ";base64,"@ + b64);
            assert(has_data_prefix(url));
            let rest = url.subrange(5, url.len() as int);
            assert(rest =~= c + ";base64,"@ + b64);
            let ci = c.len() as int;
            lemma_find_props(c, ',');
            assert(rest[ci + 7] == ',');
            assert forall|k: int| 0 <= k < ci + 7 implies rest[k] != ',' by {
                if k < ci {
                    assert(rest[k] == c[k]);
                } else {
                    assert(rest[k] == ";base64,"@[k - ci]);
                }
            }
            lemma_find_hit(rest, ',', ci + 7);
            let meta = rest.subrange(0, ci + 7);
            let payload = rest.subrange(ci + 8, rest.len() as int);
            assert(meta =~= c + ";base64,"@.subrange(0, 7));
            assert(payload =~= b64);
            assert(has_base64_suffix(meta));
        },
        Option::None => {
            if exists|cs: Seq<char>|
                encode_utf8(cs) == data && url == "data:text/plain;charset=utf-8,"@ + cs {
                let cs = choose|cs: Seq<char>|
                    encode_utf8(cs) == data && url == "data:text/plain;charset=utf-8,"@ + cs;
                assert(has_data_prefix(url));
                let rest = url.subrange(5, url.len() as int);
                let lead = "data:text/plain;charset=utf-8,"@;
                assert(rest =~= lead.subrange(5, 30) + cs);
                assert(rest[24] == ',');
                assert forall|k: int| 0 <= k < 24 implies rest[k] != ',' by {
                    assert(rest[k] == lead[k + 5]);
                }
                lemma_find_hit(rest, ',', 24);
                let meta = rest.subrange(0, 24);
                let payload = rest.subrange(25, rest.len() as int);
                assert(meta =~= lead.subrange(5, 29));
                assert(!has_base64_suffix(meta));
                assert(payload =~= cs);
            } else {
                let b64 = base64_of(data);
                assert(url == "data:application/octet-stream;base64,"@ + b64);
                assert(has_data_prefix(url));
                let rest = url.subrange(5, url.len() as int);
                let lead = "data:application/octet-stream;base64,"@;
                assert(rest =~= lead.subrange(5, 37) + b64);
                assert(rest[31] == ',');
                assert forall|k: int| 0 <= k < 31 implies rest[k] != ',' by {
                    assert(rest[k] == lead[k + 5]);
                }
                lemma_find_hit(rest, ',', 31);
                let meta = rest.subrange(0, 31);
                let payload = rest.subrange(32, rest.len() as int);
                assert(meta =~= lead.subrange(5, 36));
                assert(has_base64_suffix(meta));
                assert(payload =~= b64);
                assert(meta.subrange(0, meta.len() - 7) =~= "application/octet-stream"@);
            }
        },
    }
}

/// Round trip: deserializing any data URL that serialization produced yields
/// a byte-identical payload and, where a content type was present, an
/// identical content type. A content type containing a comma is the one
/// exception the framing cannot carry, so it is left out.
#[verifier::rlimit(100)]
pub proof fn lemma_data_url_round_trip(
    ct: Option<Seq<char>>,
    data: Seq<u8>,
    url: Seq<char>,
    ct2: Option<Seq<char>>,
    data2: Seq<u8>,
)
    requires
        ct matches Option::Some(c) ==> c.len() > 0 && find(c, ',') is None,
        file_data_url_rel(ct, data, url),
        data_url_parses_to(url, ct2, data2),
    ensures
        data2 == data,
        ct matches Option::Some(c) ==> ct2 == Option::Some(c),
{
    reveal_strlit("data:");
    reveal_strlit(";base64,");
    reveal_strlit("data:text/plain;charset=utf-8,");
    reveal_strlit("data:application/octet-stream;base64,");
    reveal_strlit("application/octet-stream");
    lemma_data_url_shape(ct, data, url);
    match ct {
        Option::Some(c) => {
            let meta = c + ";base64,"@.subrange(0, 7);
            assert(meta.subrange(0, meta.len() - 7) =~= c);
        },
        Option::None => {},
    }
}

/// The JSON-LD object of a file: `@type`, `@id` (the identifier or the
/// stable `_:file` placeholder), and the payload's data URL only when the
/// payload is non-empty.
pub open spec fn file_jsonld_spec(f: File, url: Seq<char>) -> Seq<(Seq<char>, JsonData)> {
    seq![
        ("@type"@, JsonData::Text("File"@)),
        ("@id"@, match f.id {
            Option::Some(id) => JsonData::Text(id@),
            Option::None => JsonData::Text("_:file"@),
        }),
    ] + (if f.data.data@.len() > 0 {
        seq![("data"@, JsonData::Text(url))]
    } else {
        Seq::<(Seq<char>, JsonData)>::empty()
    })
}

impl File {
    /// The file's identifier text, where it has one.
    pub fn id_str(&self) -> (r: Option<&str>)
        ensures
            match r {
                Option::Some(s) => self.id matches Option::Some(t) && s@ == t@,
                Option::None => self.id is None,
            },
    {
        match &self.id {
            Option::Some(s) => Option::Some(s.as_str()),
            Option::None => Option::None,
        }
    }

    /// The JSON-LD object of the file: an empty payload is omitted entirely,
    /// a non-empty one appears as its data URL.
    pub fn to_jsonld(&self) -> (r: JsonObject)
        requires
            self.data.data@.len() * 4 <= usize::MAX,
        ensures
            exists|url: Seq<char>|
                r@ == file_jsonld_spec(*self, url) && (self.data.data@.len() > 0
                    ==> file_data_url_rel(
                    opt_string_view(self.data.content_type),
                    self.data.data@,
                    url,
                )),
    {
        let mut fields: Vec<(String, JsonField)> = Vec::new();
        fields.push((String::from_str("@type"), JsonField::Text(String::from_str("File"))));
        match &self.id {
            Option::Some(id) => {
                fields.push((String::from_str("@id"), JsonField::Text(id.clone())));
            },
            Option::None => {
                fields.push(
                    (String::from_str("@id"), JsonField::Text(String::from_str("_:file"))),
                );
            },
        }
        if self.data.data.len() > 0 {
            let url = serialize_data(&self.data);
            let ghost urlv = url@;
            fields.push((String::from_str("data"), JsonField::Text(url)));
            let r = JsonObject { fields };
            proof {
                assert(fields_model(r.fields@) =~~= file_jsonld_spec(*self, urlv));
            }
            r
        } else {
            let r = JsonObject { fields };
            proof {
                assert(fields_model(r.fields@) =~~= file_jsonld_spec(*self, Seq::empty()));
            }
            r
        }
    }
}

impl ThingLike for File {
    fn id(&self) -> Option<&str> {
        self.id_str()
    }

    fn name(&self) -> Option<&Name> {
        match &self.name {
            Option::Some(n) => Option::Some(n),
            Option::None => Option::None,
        }
    }
}

impl FileLike for File {
    fn size(&self) -> u64 {
        self.size
    }
}

} // verus!
