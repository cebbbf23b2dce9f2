//! A minimal JSON document model for the JSON-LD views.
//!
//! A record's JSON-LD form is a single flat object whose values are strings,
//! unsigned numbers, or arrays of strings. The object keeps its members in
//! insertion order and renders to compact JSON text; string escaping follows
//! the JSON grammar (quote, backslash, and control characters).

use vstd::prelude::*;
use vstd::string::{StrSliceExecFns, StringExecFns};

use crate::text::{dec_str, joined, push_char, push_u64, str_eq};

verus! {

/// The value of one member of a JSON-LD object.
#[derive(Debug, Clone, PartialEq, Eq)]
pub enum JsonField {
    /// A JSON string.
    Text(String),
    /// A JSON non-negative integer.
    Count(u64),
    /// A JSON array of strings.
    Items(Vec<String>),
}

/// One JSON-LD object: ordered members with distinct keys by construction.
#[derive(Debug, Clone, PartialEq, Eq, Default)]
pub struct JsonObject {
    pub fields: Vec<(String, JsonField)>,
}

/// The mathematical model of one member value.
pub enum JsonData {
    Text(Seq<char>),
    Count(nat),
    Items(Seq<Seq<char>>),
}

impl DeepView for JsonField {
    type V = JsonData;

    open spec fn deep_view(&self) -> JsonData {
        match self {
            JsonField::Text(s) => JsonData::Text(s@),
            JsonField::Count(n) => JsonData::Count(*n as nat),
            JsonField::Items(v) => JsonData::Items(v.deep_view()),
        }
    }
}

/// The model of an ordered member list.
pub open spec fn fields_model(fields: Seq<(String, JsonField)>) -> Seq<(Seq<char>, JsonData)> {
    Seq::new(fields.len(), |i: int| (fields[i].0@, fields[i].1.deep_view()))
}

impl View for JsonObject {
    type V = Seq<(Seq<char>, JsonData)>;

    open spec fn view(&self) -> Seq<(Seq<char>, JsonData)> {
        fields_model(self.fields@)
    }
}

/// Whether the modeled object has a member under `k`.
pub open spec fn model_has_key(fields: Seq<(Seq<char>, JsonData)>, k: Seq<char>) -> bool {
    exists|i: int| 0 <= i < fields.len() && fields[i].0 == k
}

/// The first member under `k`, if any.
pub open spec fn model_lookup(fields: Seq<(Seq<char>, JsonData)>, k: Seq<char>) -> Option<JsonData>
    decreases fields.len(),
{
    if fields.len() == 0 {
        Option::None
    } else if fields[0].0 == k {
        Option::Some(fields[0].1)
    } else {
        model_lookup(fields.drop_first(), k)
    }
}

/// A key is present in a concatenation exactly when it is present in one of
/// the halves.
pub proof fn lemma_model_has_key_add(a: Seq<(Seq<char>, JsonData)>, b: Seq<(Seq<char>, JsonData)>)
    ensures
        forall|k: Seq<char>|
            #[trigger] model_has_key(a + b, k) <==> (model_has_key(a, k) || model_has_key(b, k)),
{
    assert forall|k: Seq<char>|
        #[trigger] model_has_key(a + b, k) <==> (model_has_key(a, k) || model_has_key(
            b,
            k,
        )) by {
        if model_has_key(a, k) {
            let i = choose|i: int| 0 <= i < a.len() && a[i].0 == k;
            assert((a + b)[i].0 == k);
        }
        if model_has_key(b, k) {
            let i = choose|i: int| 0 <= i < b.len() && b[i].0 == k;
            assert((a + b)[a.len() + i].0 == k);
        }
        if model_has_key(a + b, k) {
            let i = choose|i: int| 0 <= i < (a + b).len() && (a + b)[i].0 == k;
            if i < a.len() {
                assert(a[i].0 == k);
            } else {
                assert(b[i - a.len()].0 == k);
            }
        }
    }
}

/// The hexadecimal digit character for `d`.
pub open spec fn hex_digit(d: nat) -> char {
    if d == 0 {
        '0'
    } else if d == 1 {
        '1'
    } else if d == 2 {
        '2'
    } else if d == 3 {
        '3'
    } else if d == 4 {
        '4'
    } else if d == 5 {
        '5'
    } else if d == 6 {
        '6'
    } else if d == 7 {
        '7'
    } else if d == 8 {
        '8'
    } else if d == 9 {
        '9'
    } else if d == 10 {
        'a'
    } else if d == 11 {
        'b'
    } else if d == 12 {
        'c'
    } else if d == 13 {
        'd'
    } else if d == 14 {
        'e'
    } else {
        'f'
    }
}

/// The JSON escape of one character.
pub open spec fn json_escape_char(c: char) -> Seq<char> {
    if c == '"' {
        seq!['\\', '"']
    } else if c == '\\' {
        seq!['\\', '\\']
    } else if c == '\u{8}' {
        seq!['\\', 'b']
    } else if c == '\u{9}' {
        seq!['\\', 't']
    } else if c == '\u{A}' {
        seq!['\\', 'n']
    } else if c == '\u{C}' {
        seq!['\\', 'f']
    } else if c == '\u{D}' {
        seq!['\\', 'r']
    } else if (c as u32) < 0x20 {
        seq!['\\', 'u', '0', '0', hex_digit((c as u32 / 16) as nat), hex_digit(
            (c as u32 % 16) as nat,
        )]
    } else {
        seq![c]
    }
}

/// The JSON escape of a whole string.
pub open spec fn json_escaped(s: Seq<char>) -> Seq<char>
    decreases s.len(),
{
    if s.len() == 0 {
        Seq::empty()
    } else {
        json_escaped(s.drop_last()) + json_escape_char(s.last())
    }
}

/// A JSON string literal: the escaped text in double quotes.
pub open spec fn quoted(s: Seq<char>) -> Seq<char> {
    seq!['"'] + json_escaped(s) + seq!['"']
}

/// The rendering of one member value.
pub open spec fn render_data_spec(d: JsonData) -> Seq<char> {
    match d {
        JsonData::Text(s) => quoted(s),
        JsonData::Count(n) => dec_str(n),
        JsonData::Items(v) => seq!['['] + joined(Seq::new(v.len(), |i: int| quoted(v[i])), seq![','])
            + seq![']'],
    }
}

/// The rendering of one `key:value` member.
pub open spec fn member_spec(k: Seq<char>, d: JsonData) -> Seq<char> {
    quoted(k) + seq![':'] + render_data_spec(d)
}

/// The compact rendering of a whole object.
pub open spec fn render_object_spec(fields: Seq<(Seq<char>, JsonData)>) -> Seq<char> {
    seq!['{'] + joined(
        Seq::new(fields.len(), |i: int| member_spec(fields[i].0, fields[i].1)),
        seq![','],
    ) + seq!['}']
}

fn hex_char(d: u32) -> (c: char)
    requires
        d < 16,
    ensures
        c == hex_digit(d as nat),
{
    match d {
        0 => '0',
        1 => '1',
        2 => '2',
        3 => '3',
        4 => '4',
        5 => '5',
        6 => '6',
        7 => '7',
        8 => '8',
        9 => '9',
        10 => 'a',
        11 => 'b',
        12 => 'c',
        13 => 'd',
        14 => 'e',
        _ => 'f',
    }
}

/// Appends the JSON escape of one character to `out`.
fn push_escaped_char(out: &mut String, c: char)
    ensures
        final(out)@ == old(out)@ + json_escape_char(c),
{
    let u = c as u32;
    if c == '"' {
        push_char(out, '\\');
        push_char(out, '"');
    } else if c == '\\' {
        push_char(out, '\\');
        push_char(out, '\\');
    } else if u == 0x8 {
        push_char(out, '\\');
        push_char(out, 'b');
    } else if u == 0x9 {
        push_char(out, '\\');
        push_char(out, 't');
    } else if u == 0xA {
        push_char(out, '\\');
        push_char(out, 'n');
    } else if u == 0xC {
        push_char(out, '\\');
        push_char(out, 'f');
    } else if u == 0xD {
        push_char(out, '\\');
        push_char(out, 'r');
    } else if u < 0x20 {
        push_char(out, '\\');
        push_char(out, 'u');
        push_char(out, '0');
        push_char(out, '0');
        push_char(out, hex_char(u / 16));
        push_char(out, hex_char(u % 16));
    } else {
        push_char(out, c);
    }
    proof {
        assert(out@ =~= old(out)@ + json_escape_char(c));
    }
}

/// Appends the JSON escape of `s` to `out`.
fn push_escaped(out: &mut String, s: &str)
    ensures
        final(out)@ == old(out)@ + json_escaped(s@),
{
    let n = s.unicode_len();
    let mut i: usize = 0;
    while i < n
        invariant
            0 <= i <= n,
            n == s@.len(),
            out@ == old(out)@ + json_escaped(s@.subrange(0, i as int)),
        decreases n - i,
    {
        push_escaped_char(out, s.get_char(i));
        i = i + 1;
        proof {
            let pre = s@.subrange(0, i as int);
            assert(pre.drop_last() =~= s@.subrange(0, i - 1));
            assert(out@ =~= old(out)@ + json_escaped(pre));
        }
    }
    proof {
        assert(s@.subrange(0, n as int) =~= s@);
    }
}

/// Appends the JSON string literal for `s` to `out`.
fn push_quoted(out: &mut String, s: &str)
    ensures
        final(out)@ == old(out)@ + quoted(s@),
{
    push_char(out, '"');
    push_escaped(out, s);
    push_char(out, '"');
    proof {
        assert(out@ =~= old(out)@ + quoted(s@));
    }
}

/// Appends the rendering of one member value to `out`.
fn push_field(out: &mut String, f: &JsonField)
    ensures
        final(out)@ == old(out)@ + render_data_spec(f.deep_view()),
{
    match f {
        JsonField::Text(s) => {
            push_quoted(out, s.as_str());
        },
        JsonField::Count(n) => {
            push_u64(out, *n);
        },
        JsonField::Items(v) => {
            push_char(out, '[');
            let ghost dv = v.deep_view();
            let ghost all = Seq::new(dv.len(), |i: int| quoted(dv[i]));
            proof {
                assert(out@ =~= old(out)@ + seq!['['] + joined(all.subrange(0, 0), seq![',']));
            }
            let mut i: usize = 0;
            while i < v.len()
                invariant
                    0 <= i <= v@.len(),
                    dv == v.deep_view(),
                    all == Seq::new(dv.len(), |k: int| quoted(dv[k])),
                    dv.len() == v@.len(),
                    out@ == old(out)@ + seq!['['] + joined(all.subrange(0, i as int), seq![',']),
                decreases v@.len() - i,
            {
                if i > 0 {
                    push_char(out, ',');
                }
                push_quoted(out, v[i].as_str());
                i = i + 1;
                proof {
                    let p = all.subrange(0, i as int);
                    assert(p.drop_last() =~= all.subrange(0, i - 1));
                    assert(out@ =~= old(out)@ + seq!['['] + joined(p, seq![',']));
                }
            }
            push_char(out, ']');
            proof {
                assert(all.subrange(0, dv.len() as int) =~= all);
                assert(out@ =~= old(out)@ + render_data_spec(f.deep_view()));
            }
        },
    }
}

impl JsonField {
    /// The string content, when the value is a string.
    pub fn as_str(&self) -> (r: Option<&str>)
        ensures
            match r {
                Option::Some(s) => self.deep_view() == JsonData::Text(s@),
                Option::None => !(self.deep_view() matches JsonData::Text(_)),
            },
    {
        match self {
            JsonField::Text(s) => Option::Some(s.as_str()),
            _ => Option::None,
        }
    }

    /// The numeric content, when the value is a number.
    pub fn as_u64(&self) -> (r: Option<u64>)
        ensures
            match r {
                Option::Some(n) => self.deep_view() == JsonData::Count(n as nat),
                Option::None => !(self.deep_view() matches JsonData::Count(_)),
            },
    {
        match self {
            JsonField::Count(n) => Option::Some(*n),
            _ => Option::None,
        }
    }
}

impl JsonObject {
    /// An object with no members.
    pub fn new() -> (r: JsonObject)
        ensures
            r@ =~= Seq::<(Seq<char>, JsonData)>::empty(),
    {
        JsonObject { fields: Vec::new() }
    }

    /// The first member under `key`, if any.
    pub fn get(&self, key: &str) -> (r: Option<&JsonField>)
        ensures
            match r {
                Option::Some(f) => model_lookup(self@, key@) == Option::Some(f.deep_view()),
                Option::None => model_lookup(self@, key@) is None,
            },
    {
        let n = self.fields.len();
        proof {
            assert(self@.subrange(0, n as int) =~= self@);
        }
        let mut i: usize = 0;
        while i < n
            invariant
                0 <= i <= n,
                n == self.fields@.len(),
                n == self@.len(),
                model_lookup(self@, key@) == model_lookup(
                    self@.subrange(i as int, n as int),
                    key@,
                ),
            decreases n - i,
        {
            let ghost pre = self@.subrange(i as int, n as int);
            if str_eq(self.fields[i].0.as_str(), key) {
                proof {
                    assert(pre[0].0 == key@);
                }
                return Option::Some(&self.fields[i].1);
            }
            i = i + 1;
            proof {
                assert(pre[0].0 != key@);
                assert(pre.drop_first() =~= self@.subrange(i as int, n as int));
            }
        }
        proof {
            assert(self@.subrange(n as int, n as int) =~= Seq::<(Seq<char>, JsonData)>::empty());
        }
        Option::None
    }

    /// Renders the object to compact JSON text.
    pub fn render(&self) -> (r: String)
        ensures
            r@ == render_object_spec(self@),
    {
        let mut out = String::new();
        push_char(&mut out, '{');
        let ghost all = Seq::new(self@.len(), |i: int| member_spec(self@[i].0, self@[i].1));
        proof {
            assert(out@ =~= seq!['{'] + joined(all.subrange(0, 0), seq![',']));
        }
        let n = self.fields.len();
        let mut i: usize = 0;
        while i < n
            invariant
                0 <= i <= n,
                n == self.fields@.len(),
                n == self@.len(),
                all == Seq::new(self@.len(), |k: int| member_spec(self@[k].0, self@[k].1)),
                out@ == seq!['{'] + joined(all.subrange(0, i as int), seq![',']),
            decreases n - i,
        {
            if i > 0 {
                push_char(&mut out, ',');
            }
            push_quoted(&mut out, self.fields[i].0.as_str());
            push_char(&mut out, ':');
            push_field(&mut out, &self.fields[i].1);
            i = i + 1;
            proof {
                let p = all.subrange(0, i as int);
                assert(p.drop_last() =~= all.subrange(0, i - 1));
                assert(out@ =~= seq!['{'] + joined(p, seq![',']));
            }
        }
        push_char(&mut out, '}');
        proof {
            assert(all.subrange(0, n as int) =~= all);
            assert(out@ =~= render_object_spec(self@));
        }
        out
    }
}

} // verus!
