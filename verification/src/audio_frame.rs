//! The canonical audio frame record: a plain attribute container whose
//! sample payload packs into a `data:audio/l16` URL form.

use vstd::prelude::*;
use vstd::string::StringExecFns;

use crate::data_url::{
    after_last_comma, base64_of, decode_media_payload, is_base64_char, media_data_url,
};
use crate::errors::DataUrlError;
use crate::json::{fields_model, JsonData, JsonField, JsonObject};
use crate::traits::ThingLike;
use crate::Name;

verus! {

/// An audio frame.
pub trait AudioFrameLike: ThingLike {

}

/// The canonical audio frame record.
#[derive(Clone, Debug, Default, Eq, Hash, PartialEq, PartialOrd, Ord)]
pub struct AudioFrame {
    pub id: Option<String>,
    pub rate: Option<usize>,
    pub channels: Option<u8>,
    pub samples: Option<usize>,
    pub data: Vec<u8>,
}

/// Packs sample data into its `data:audio/l16;base64,` URL form.
pub fn serialize_data(data: &Vec<u8>) -> (r: String)
    requires
        data@.len() * 4 <= usize::MAX,
    ensures
        r@ == "data:audio/l16;base64,"@ + base64_of(data@),
        forall|i: int|
            "data:audio/l16;base64,"@.len() <= i < r@.len() ==> is_base64_char(#[trigger] r@[i]),
{
    media_data_url("data:audio/l16;base64,", data.as_slice())
}

/// Unpacks sample data from a `data:` URL: what follows the last comma is
/// decoded as base64; fails exactly when that segment is not a canonical
/// encoding.
pub fn deserialize_data(s: &str) -> (r: Result<Vec<u8>, DataUrlError>)
    ensures
        r is Ok <==> exists|b: Seq<u8>| after_last_comma(s@) == base64_of(b),
        r matches Ok(v) ==> after_last_comma(s@) == base64_of(v@) && (forall|b: Seq<u8>|
            after_last_comma(s@) == base64_of(b) ==> v@ == b),
        r matches Err(e) ==> e == DataUrlError::InvalidBase64,
{
    match decode_media_payload(s) {
        Option::Some(v) => Ok(v),
        Option::None => Err(DataUrlError::InvalidBase64),
    }
}

/// The JSON-LD object of an audio frame: `@type`, `@id` (the identifier or
/// the stable `_:audio_frame` placeholder), the optional shape fields only
/// when present, and the sample payload as its data URL.
pub open spec fn audio_frame_jsonld_spec(f: AudioFrame) -> Seq<(Seq<char>, JsonData)> {
    seq![
        ("@type"@, JsonData::Text("AudioFrame"@)),
        ("@id"@, match f.id {
            Option::Some(id) => JsonData::Text(id@),
            Option::None => JsonData::Text("_:audio_frame"@),
        }),
    ] + (match f.rate {
        Option::Some(x) => seq![("rate"@, JsonData::Count(x as nat))],
        Option::None => Seq::empty(),
    }) + (match f.channels {
        Option::Some(x) => seq![("channels"@, JsonData::Count(x as nat))],
        Option::None => Seq::empty(),
    }) + (match f.samples {
        Option::Some(x) => seq![("samples"@, JsonData::Count(x as nat))],
        Option::None => Seq::empty(),
    }) + seq![("data"@, JsonData::Text("data:audio/l16;base64,"@ + base64_of(f.data@)))]
}

impl AudioFrame {
    /// The frame's identifier text, where it has one.
    pub fn id_str(&self) -> (r: Option<&str>)
        ensures
            match r {
                Option::Some(s) => self.id matches Option::Some(t) && s@ == t@,
                Option::None => self.id is None,
            },
    {
        match &self.id {
            Option::Some(s) => Option::Some(s.as_str()),
            Option::None => Option::None,
        }
    }

    /// The JSON-LD object of the frame: absent shape fields are omitted
    /// entirely; the payload is always present as its data URL.
    pub fn to_jsonld(&self) -> (r: JsonObject)
        requires
            self.data@.len() * 4 <= usize::MAX,
        ensures
            r@ == audio_frame_jsonld_spec(*self),
    {
        let mut fields: Vec<(String, JsonField)> = Vec::new();
        fields.push(
            (String::from_str("@type"), JsonField::Text(String::from_str("AudioFrame"))),
        );
        match &self.id {
            Option::Some(id) => {
                fields.push((String::from_str("@id"), JsonField::Text(id.clone())));
            },
            Option::None => {
                fields.push(
                    (String::from_str("@id"), JsonField::Text(String::from_str("_:audio_frame"))),
                );
            },
        }
        match &self.rate {
            Option::Some(x) => {
                fields.push((String::from_str("rate"), JsonField::Count(*x as u64)));
            },
            Option::None => {},
        }
        match &self.channels {
            Option::Some(x) => {
                fields.push((String::from_str("channels"), JsonField::Count(*x as u64)));
            },
            Option::None => {},
        }
        match &self.samples {
            Option::Some(x) => {
                fields.push((String::from_str("samples"), JsonField::Count(*x as u64)));
            },
            Option::None => {},
        }
        fields.push((String::from_str("data"), JsonField::Text(serialize_data(&self.data))));
        let r = JsonObject { fields };
        proof {
            assert(fields_model(r.fields@) =~~= audio_frame_jsonld_spec(*self));
        }
        r
    }
}

impl ThingLike for AudioFrame {
    fn id(&self) -> Option<&str> {
        self.id_str()
    }

    fn name(&self) -> Option<&Name> {
        Option::None
    }
}

impl AudioFrameLike for AudioFrame {

}

} // verus!
