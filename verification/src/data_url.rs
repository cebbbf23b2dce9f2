//! Packing binary payloads into `data:` URLs and unpacking them again.
//!
//! A payload serializes as `data:<content-type>;base64,<payload>` (or, for a
//! typeless text payload, verbatim after a `text/plain` content type).
//! Deserialization strips the `data:` prefix, splits on the first comma, and
//! uses a `;base64` suffix on the content-type segment to decide between
//! base64 decoding and verbatim bytes. Base64 itself is done by the `base64`
//! crate's standard engine through trusted bridges; the framing and its
//! round-trip laws are verified here.

use vstd::prelude::*;
use vstd::string::{StrSliceExecFns, StringExecFns};
use vstd::utf8::encode_utf8;

use base64::Engine;

use crate::text::{lemma_rfind_hit, rfind, rfind_char};

verus! {

/// What the standard base64 encoding of a byte sequence is: a function of
/// the bytes alone.
pub uninterp spec fn base64_of(b: Seq<u8>) -> Seq<char>;

/// A character of the standard base64 alphabet, including padding.
pub open spec fn is_base64_char(c: char) -> bool {
    let u = c as u32;
    ||| (0x41 <= u && u <= 0x5A)
    ||| (0x61 <= u && u <= 0x7A)
    ||| (0x30 <= u && u <= 0x39)
    ||| u == 0x2B
    ||| u == 0x2F
    ||| u == 0x3D
}

/// Relies on the `base64` crate's standard engine `encode`: canonical,
/// padded base64 over the standard alphabet, a function of the bytes alone;
/// every output character is in the alphabet. The length bound keeps the
/// engine's output-size computation from overflowing.
#[verifier::external_body]
pub(crate) fn b64_encode(b: &[u8]) -> (r: String)
    requires
        b@.len() * 4 <= usize::MAX,
    ensures
        r@ == base64_of(b@),
        b@.len() == 0 ==> r@.len() == 0,
        forall|i: int| 0 <= i < r@.len() ==> is_base64_char(#[trigger] r@[i]),
{
    base64::prelude::BASE64_STANDARD.encode(b)
}

/// Relies on the `base64` crate's standard engine `decode`: it accepts
/// exactly the canonical encodings (padding required, no trailing bits) and
/// inverts `encode`, so the bytes returned are the unique preimage.
#[verifier::external_body]
pub(crate) fn b64_decode(s: &str) -> (r: Option<Vec<u8>>)
    ensures
        r matches Option::Some(v) ==> s@ == base64_of(v@) && (forall|b: Seq<u8>|
            s@ == base64_of(b) ==> v@ == b),
        (exists|b: Seq<u8>| s@ == base64_of(b)) ==> r is Some,
        r is None ==> !(exists|b: Seq<u8>| s@ == base64_of(b)),
{
    base64::prelude::BASE64_STANDARD.decode(s).ok()
}

/// The index of the first occurrence of `c` in `s`, if any.
pub open spec fn find(s: Seq<char>, c: char) -> Option<int>
    decreases s.len(),
{
    if s.len() == 0 {
        Option::None
    } else if s[0] == c {
        Option::Some(0)
    } else {
        match find(s.drop_first(), c) {
            Option::Some(i) => Option::Some(i + 1),
            Option::None => Option::None,
        }
    }
}

/// Where the first occurrence sits, `find` returns it.
pub proof fn lemma_find_hit(s: Seq<char>, c: char, i: int)
    requires
        0 <= i < s.len(),
        s[i] == c,
        forall|k: int| 0 <= k < i ==> s[k] != c,
    ensures
        find(s, c) == Option::Some(i),
    decreases s.len(),
{
    if i > 0 {
        lemma_find_hit(s.drop_first(), c, i - 1);
    }
}

/// Where no occurrence exists, `find` returns nothing.
pub proof fn lemma_find_miss(s: Seq<char>, c: char)
    requires
        forall|k: int| 0 <= k < s.len() ==> s[k] != c,
    ensures
        find(s, c) is None,
    decreases s.len(),
{
    if s.len() > 0 {
        lemma_find_miss(s.drop_first(), c);
    }
}

/// Conversely, what `find` returns is a first occurrence.
pub proof fn lemma_find_props(s: Seq<char>, c: char)
    ensures
        find(s, c) matches Option::Some(i) ==> 0 <= i < s.len() && s[i] == c && (forall|k: int|
            0 <= k < i ==> s[k] != c),
        find(s, c) is None ==> forall|k: int| 0 <= k < s.len() ==> s[k] != c,
    decreases s.len(),
{
    if s.len() > 0 && s[0] != c {
        lemma_find_props(s.drop_first(), c);
        let d = s.drop_first();
        match find(d, c) {
            Option::Some(i) => {
                assert(s[i + 1] == d[i]);
                assert forall|k: int| 0 <= k < i + 1 implies s[k] != c by {
                    if k > 0 {
                        assert(s[k] == d[k - 1]);
                    }
                }
            },
            Option::None => {
                assert forall|k: int| 0 <= k < s.len() implies s[k] != c by {
                    if k > 0 {
                        assert(s[k] == d[k - 1]);
                    }
                }
            },
        }
    }
}

/// Finds the first occurrence of `c` in `s`, as `find` describes.
pub fn find_char(s: &str, c: char) -> (r: Option<usize>)
    ensures
        match r {
            Option::Some(i) => find(s@, c) == Option::Some(i as int),
            Option::None => find(s@, c) is None,
        },
{
    let n = s.unicode_len();
    let mut i: usize = 0;
    while i < n
        invariant
            0 <= i <= n,
            n == s@.len(),
            forall|k: int| 0 <= k < i ==> s@[k] != c,
        decreases n - i,
    {
        if s.get_char(i) == c {
            proof {
                lemma_find_hit(s@, c, i as int);
            }
            return Option::Some(i);
        }
        i = i + 1;
    }
    proof {
        lemma_find_miss(s@, c);
    }
    Option::None
}

/// Whether the text starts with the `data:` scheme.
pub open spec fn has_data_prefix(s: Seq<char>) -> bool {
    s.len() >= 5 && s[0] == 'd' && s[1] == 'a' && s[2] == 't' && s[3] == 'a' && s[4] == ':'
}

/// Whether a content-type segment ends with the `;base64` marker.
pub open spec fn has_base64_suffix(m: Seq<char>) -> bool {
    let n = m.len() as int;
    m.len() >= 7 && m[n - 7] == ';' && m[n - 6] == 'b' && m[n - 5] == 'a' && m[n - 4] == 's'
        && m[n - 3] == 'e' && m[n - 2] == '6' && m[n - 1] == '4'
}

/// A content-type segment as an optional value: empty means none.
pub open spec fn opt_ct(m: Seq<char>) -> Option<Seq<char>> {
    if m.len() > 0 {
        Option::Some(m)
    } else {
        Option::None
    }
}

/// The content-type segment and the payload segment of a data URL: what
/// stands between the `data:` prefix and the first comma, and what follows
/// that comma.
pub open spec fn data_url_split(s: Seq<char>) -> Option<(Seq<char>, Seq<char>)> {
    if has_data_prefix(s) {
        let rest = s.subrange(5, s.len() as int);
        match find(rest, ',') {
            Option::Some(i) => Option::Some(
                (rest.subrange(0, i), rest.subrange(i + 1, rest.len() as int)),
            ),
            Option::None => Option::None,
        }
    } else {
        Option::None
    }
}

/// What a successfully deserialized data URL holds: with a `;base64` marker
/// the payload is the canonical encoding of the bytes (and of no others);
/// without it the bytes are the UTF-8 encoding of the verbatim payload text.
pub open spec fn data_url_parses_to(s: Seq<char>, ct: Option<Seq<char>>, data: Seq<u8>) -> bool {
    match data_url_split(s) {
        Option::None => false,
        Option::Some((meta, payload)) => if has_base64_suffix(meta) {
            &&& payload == base64_of(data)
            &&& (forall|b: Seq<u8>| payload == base64_of(b) ==> data == b)
            &&& ct == opt_ct(meta.subrange(0, meta.len() - 7))
        } else {
            &&& data == encode_utf8(payload)
            &&& ct == opt_ct(meta)
        },
    }
}

/// Whether a data URL deserializes at all: it splits, and a base64 payload
/// is a canonical encoding.
pub open spec fn data_url_accepted(s: Seq<char>) -> bool {
    match data_url_split(s) {
        Option::None => false,
        Option::Some((meta, payload)) => !has_base64_suffix(meta) || (exists|b: Seq<u8>|
            payload == base64_of(b)),
    }
}

/// What serializing a payload produces: with a content type, that type and
/// the base64 payload; without one, the verbatim text form exactly when the
/// bytes are well-formed UTF-8, and the octet-stream base64 form otherwise.
pub open spec fn file_data_url_rel(ct: Option<Seq<char>>, data: Seq<u8>, url: Seq<char>) -> bool {
    match ct {
        Option::Some(c) => url == "data:"@ + c + ";base64,"@ + base64_of(data),
        Option::None => if exists|cs: Seq<char>| encode_utf8(cs) == data {
            exists|cs: Seq<char>|
                encode_utf8(cs) == data && url == "data:text/plain;charset=utf-8,"@ + cs
        } else {
            url == "data:application/octet-stream;base64,"@ + base64_of(data)
        },
    }
}

/// The text after the last comma, or the whole text when no comma exists.
pub open spec fn after_last_comma(s: Seq<char>) -> Seq<char> {
    match rfind(s, ',') {
        Option::Some(i) => s.subrange(i + 1, s.len() as int),
        Option::None => s,
    }
}

/// Packs a media payload: a fixed `data:<type>;base64,` lead and the base64
/// payload, every payload character in the base64 alphabet.
pub fn media_data_url(prefix: &str, data: &[u8]) -> (r: String)
    requires
        data@.len() * 4 <= usize::MAX,
    ensures
        r@ == prefix@ + base64_of(data@),
        forall|i: int| prefix@.len() <= i < r@.len() ==> is_base64_char(#[trigger] r@[i]),
{
    let mut out = String::from_str(prefix);
    let b64 = b64_encode(data);
    out.append(b64.as_str());
    out
}

/// Unpacks a media payload: decodes what follows the last comma (or the
/// whole text when no comma exists), as the base64 bridge says.
pub fn decode_media_payload(s: &str) -> (r: Option<Vec<u8>>)
    ensures
        r matches Option::Some(v) ==> after_last_comma(s@) == base64_of(v@) && (forall|
            b: Seq<u8>,
        |
            after_last_comma(s@) == base64_of(b) ==> v@ == b),
        r is Some <==> exists|b: Seq<u8>| after_last_comma(s@) == base64_of(b),
{
    let n = s.unicode_len();
    match rfind_char(s, ',') {
        Option::Some(i) => {
            proof {
                crate::text::lemma_rfind_props(s@, ',');
            }
            let payload = s.substring_char(i + 1, n);
            b64_decode(payload)
        },
        Option::None => b64_decode(s),
    }
}

/// Where a packed media payload sits: the last comma of the URL is the one
/// that ends the lead, since the base64 alphabet holds no comma, so what
/// follows it is exactly the payload.
proof fn lemma_media_payload_position(prefix: Seq<char>, data: Seq<u8>, url: Seq<char>)
    requires
        prefix.len() > 0,
        prefix.last() == ',',
        url == prefix + base64_of(data),
        forall|i: int| prefix.len() <= i < url.len() ==> is_base64_char(#[trigger] url[i]),
    ensures
        after_last_comma(url) == base64_of(data),
{
    let pl = prefix.len() as int;
    assert(url[pl - 1] == ',');
    assert forall|k: int| pl - 1 < k < url.len() implies url[k] != ',' by {
        assert(is_base64_char(url[k]));
        assert((',' as u32) == 0x2C);
    }
    lemma_rfind_hit(url, ',', pl - 1);
    assert(url.subrange(pl, url.len() as int) =~= base64_of(data));
}

/// Round trip for media payloads: a packed payload unpacks to byte-identical
/// data, since the base64 alphabet holds no comma.
pub proof fn lemma_media_data_url_round_trip(
    prefix: Seq<char>,
    data: Seq<u8>,
    url: Seq<char>,
    data2: Seq<u8>,
)
    requires
        prefix.len() > 0,
        prefix.last() == ',',
        url == prefix + base64_of(data),
        forall|i: int| prefix.len() <= i < url.len() ==> is_base64_char(#[trigger] url[i]),
        after_last_comma(url) == base64_of(data2),
        forall|b: Seq<u8>| after_last_comma(url) == base64_of(b) ==> data2 == b,
    ensures
        data2 == data,
{
    lemma_media_payload_position(prefix, data, url);
}

/// The packed and unpacked forms of a media payload also agree on success:
/// the packed form always unpacks.
pub proof fn lemma_media_data_url_accepted(prefix: Seq<char>, data: Seq<u8>, url: Seq<char>)
    requires
        prefix.len() > 0,
        prefix.last() == ',',
        url == prefix + base64_of(data),
        forall|i: int| prefix.len() <= i < url.len() ==> is_base64_char(#[trigger] url[i]),
    ensures
        exists|b: Seq<u8>| after_last_comma(url) == base64_of(b),
{
    lemma_media_payload_position(prefix, data, url);
    assert(after_last_comma(url) == base64_of(data));
}

} // verus!
