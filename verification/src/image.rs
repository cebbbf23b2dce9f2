//! The canonical image record: a plain attribute container whose pixel
//! payload packs into a `data:image/rgb` URL form.

use vstd::prelude::*;
use vstd::string::StringExecFns;

use crate::data_url::{
    after_last_comma, base64_of, decode_media_payload, is_base64_char, media_data_url,
};
use crate::errors::DataUrlError;
use crate::json::{fields_model, JsonData, JsonField, JsonObject};
use crate::traits::ThingLike;
use crate::Name;

verus! {

/// An image.
pub trait ImageLike: ThingLike {

}

/// The canonical image record.
#[derive(Clone, Debug, Default, Eq, Hash, PartialEq, PartialOrd, Ord)]
pub struct Image {
    pub id: Option<String>,
    pub width: Option<usize>,
    pub height: Option<usize>,
    pub data: Vec<u8>,
    pub source: Option<String>,
}

/// Packs pixel data into its `data:image/rgb;base64,` URL form.
pub fn serialize_data(data: &Vec<u8>) -> (r: String)
    requires
        data@.len() * 4 <= usize::MAX,
    ensures
        r@ == "data:image/rgb;base64,"@ + base64_of(data@),
        forall|i: int|
            "data:image/rgb;base64,"@.len() <= i < r@.len() ==> is_base64_char(#[trigger] r@[i]),
{
    media_data_url("data:image/rgb;base64,", data.as_slice())
}

/// Unpacks pixel data from a `data:` URL: what follows the last comma is
/// decoded as base64; fails exactly when that segment is not a canonical
/// encoding.
pub fn deserialize_data(s: &str) -> (r: Result<Vec<u8>, DataUrlError>)
    ensures
        r is Ok <==> exists|b: Seq<u8>| after_last_comma(s@) == base64_of(b),
        r matches Ok(v) ==> after_last_comma(s@) == base64_of(v@) && (forall|b: Seq<u8>|
            after_last_comma(s@) == base64_of(b) ==> v@ == b),
        r matches Err(e) ==> e == DataUrlError::InvalidBase64,
{
    match decode_media_payload(s) {
        Option::Some(v) => Ok(v),
        Option::None => Err(DataUrlError::InvalidBase64),
    }
}

/// The JSON-LD object of an image: `@type`, `@id` (the identifier or the
/// stable `_:image` placeholder), the dimensions and source only when
/// present, and the pixel payload as its data URL.
pub open spec fn image_jsonld_spec(img: Image) -> Seq<(Seq<char>, JsonData)> {
    seq![
        ("@type"@, JsonData::Text("Image"@)),
        ("@id"@, match img.id {
            Option::Some(id) => JsonData::Text(id@),
            Option::None => JsonData::Text("_:image"@),
        }),
    ] + (match img.width {
        Option::Some(w) => seq![("width"@, JsonData::Count(w as nat))],
        Option::None => Seq::empty(),
    }) + (match img.height {
        Option::Some(h) => seq![("height"@, JsonData::Count(h as nat))],
        Option::None => Seq::empty(),
    }) + seq![("data"@, JsonData::Text("data:image/rgb;base64,"@ + base64_of(img.data@)))] + (
    match img.source {
        Option::Some(src) => seq![("source"@, JsonData::Text(src@))],
        Option::None => Seq::empty(),
    })
}

impl Image {
    /// The image's identifier text, where it has one.
    pub fn id_str(&self) -> (r: Option<&str>)
        ensures
            match r {
                Option::Some(s) => self.id matches Option::Some(t) && s@ == t@,
                Option::None => self.id is None,
            },
    {
        match &self.id {
            Option::Some(s) => Option::Some(s.as_str()),
            Option::None => Option::None,
        }
    }

    /// The JSON-LD object of the image: absent dimensions and source are
    /// omitted entirely; the payload is always present as its data URL.
    pub fn to_jsonld(&self) -> (r: JsonObject)
        requires
            self.data@.len() * 4 <= usize::MAX,
        ensures
            r@ == image_jsonld_spec(*self),
    {
        let mut fields: Vec<(String, JsonField)> = Vec::new();
        fields.push((String::from_str("@type"), JsonField::Text(String::from_str("Image"))));
        match &self.id {
            Option::Some(id) => {
                fields.push((String::from_str("@id"), JsonField::Text(id.clone())));
            },
            Option::None => {
                fields.push(
                    (String::from_str("@id"), JsonField::Text(String::from_str("_:image"))),
                );
            },
        }
        match &self.width {
            Option::Some(w) => {
                fields.push((String::from_str("width"), JsonField::Count(*w as u64)));
            },
            Option::None => {},
        }
        match &self.height {
            Option::Some(h) => {
                fields.push((String::from_str("height"), JsonField::Count(*h as u64)));
            },
            Option::None => {},
        }
        fields.push((String::from_str("data"), JsonField::Text(serialize_data(&self.data))));
        match &self.source {
            Option::Some(src) => {
                fields.push((String::from_str("source"), JsonField::Text(src.clone())));
            },
            Option::None => {},
        }
        let r = JsonObject { fields };
        proof {
            assert(fields_model(r.fields@) =~~= image_jsonld_spec(*self));
        }
        r
    }
}

impl ThingLike for Image {
    fn id(&self) -> Option<&str> {
        self.id_str()
    }

    fn name(&self) -> Option<&Name> {
        Option::None
    }
}

impl ImageLike for Image {

}

} // verus!
