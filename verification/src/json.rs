use vstd::prelude::*;
use crate::text::{str_eq, concat_map, push_str, chars_of, lemma_concat_map_step};
use vstd::string::StringExecFns;

verus! {

/// The mathematical content of a JSON document: strings are character
/// sequences, numbers are kept as their textual form.
pub enum JsonData {
    Null,
    Bool(bool),
    Number(Seq<char>),
    Str(Seq<char>),
    Array(Seq<JsonData>),
    Object(Seq<(Seq<char>, JsonData)>),
}

/// An in-memory JSON value. Numbers are held as their decimal text so that
/// no floating point is involved; object members keep their order.
#[derive(Debug)]
pub enum JsonValue {
    Null,
    Bool(bool),
    Number(String),
    String(String),
    Array(Vec<JsonValue>),
    Object(Vec<(String, JsonValue)>),
}

impl JsonValue {
    pub open spec fn data(self) -> JsonData
        decreases self,
    {
        match self {
            JsonValue::Null => JsonData::Null,
            JsonValue::Bool(b) => JsonData::Bool(b),
            JsonValue::Number(n) => JsonData::Number(n@),
            JsonValue::String(s) => JsonData::Str(s@),
            JsonValue::Array(items) => JsonData::Array(
                Seq::new(items@.len(), |i: int| if 0 <= i < items@.len() { items@[i].data() } else { JsonData::Null }),
            ),
            JsonValue::Object(members) => JsonData::Object(
                Seq::new(members@.len(), |i: int| if 0 <= i < members@.len() { (members@[i].0@, members@[i].1.data()) } else { (Seq::empty(), JsonData::Null) }),
            ),
        }
    }
}


/// The value stored under `key` among object members: the first member
/// with that key.
pub open spec fn lookup(members: Seq<(Seq<char>, JsonData)>, key: Seq<char>) -> Option<JsonData>
    decreases members.len(),
{
    if members.len() == 0 {
        None
    } else if members[0].0 == key {
        Some(members[0].1)
    } else {
        lookup(members.drop_first(), key)
    }
}

impl JsonData {
    /// Member `key` of an object; `None` for a missing key or a non-object.
    pub open spec fn get(self, key: Seq<char>) -> Option<JsonData> {
        match self {
            JsonData::Object(members) => lookup(members, key),
            _ => None,
        }
    }

    pub open spec fn as_str(self) -> Option<Seq<char>> {
        match self {
            JsonData::Str(s) => Some(s),
            _ => None,
        }
    }

    pub open spec fn as_array(self) -> Option<Seq<JsonData>> {
        match self {
            JsonData::Array(items) => Some(items),
            _ => None,
        }
    }

    pub open spec fn as_bool(self) -> Option<bool> {
        match self {
            JsonData::Bool(b) => Some(b),
            _ => None,
        }
    }

    /// Member `key` as a string, if present and a string.
    pub open spec fn get_str(self, key: Seq<char>) -> Option<Seq<char>> {
        match self.get(key) {
            Some(v) => v.as_str(),
            None => None,
        }
    }
}

proof fn lemma_lookup_skip(members: Seq<(Seq<char>, JsonData)>, key: Seq<char>, i: int)
    requires
        0 <= i <= members.len(),
        forall|k: int| 0 <= k < i ==> members[k].0 != key,
    ensures
        lookup(members, key) == lookup(members.skip(i), key),
    decreases i,
{
    if i > 0 {
        lemma_lookup_skip(members.drop_first(), key, i - 1);
        assert(members.drop_first().skip(i - 1) =~= members.skip(i));
    } else {
        assert(members.skip(0) =~= members);
    }
}

impl JsonValue {
    /// Member `key` of an object value.
    pub fn get(&self, key: &str) -> (r: Option<&JsonValue>)
        ensures
            r is None <==> self.data().get(key@) is None,
            r matches Some(v) ==> self.data().get(key@) == Some(v.data()),
    {
        match self {
            JsonValue::Object(members) => {
                let ghost ms = self.data()->Object_0;
                let mut i: usize = 0;
                while i < members.len()
                    invariant
                        i <= members.len(),
                        ms.len() == members.len(),
                        *self == JsonValue::Object(*members),
                        ms == self.data()->Object_0,
                        forall|k: int| 0 <= k < ms.len() ==> #[trigger] ms[k] == (members@[k].0@, members@[k].1.data()),
                        forall|k: int| 0 <= k < i ==> ms[k].0 != key@,
                    decreases members.len() - i,
                {
                    if str_eq(members[i].0.as_str(), key) {
                        proof {
                            lemma_lookup_skip(ms, key@, i as int);
                            assert(ms.skip(i as int)[0] == ms[i as int]);
                        }
                        return Some(&members[i].1);
                    }
                    i = i + 1;
                }
                proof {
                    lemma_lookup_skip(ms, key@, i as int);
                }
                None
            },
            _ => None,
        }
    }

    /// The text of a string value.
    pub fn as_str(&self) -> (r: Option<&str>)
        ensures
            r is None <==> self.data().as_str() is None,
            r matches Some(s) ==> self.data().as_str() == Some(s@),
    {
        match self {
            JsonValue::String(s) => Some(s.as_str()),
            _ => None,
        }
    }

    /// The items of an array value.
    pub fn as_array(&self) -> (r: Option<&Vec<JsonValue>>)
        ensures
            r == (match *self {
                JsonValue::Array(items) => Some(&items),
                _ => None,
            }),
    {
        match self {
            JsonValue::Array(items) => Some(items),
            _ => None,
        }
    }

    /// The value of a boolean.
    pub fn as_bool(&self) -> (r: Option<bool>)
        ensures
            r == self.data().as_bool(),
    {
        match self {
            JsonValue::Bool(b) => Some(*b),
            _ => None,
        }
    }

    /// Whether the value is an array.
    pub fn is_array(&self) -> (r: bool)
        ensures
            r == self.data().as_array() is Some,
    {
        match self {
            JsonValue::Array(_) => true,
            _ => false,
        }
    }
}

/// The contents of a sequence of values.
pub open spec fn datas(items: Seq<JsonValue>) -> Seq<JsonData> {
    Seq::new(items.len(), |i: int| items[i].data())
}

/// The contents of an array value are the contents of its items.
pub proof fn lemma_array_data(v: &JsonValue)
    ensures
        v matches JsonValue::Array(items) ==> v.data() == JsonData::Array(datas(items@)),
        v matches JsonValue::Object(members) ==> v.data() == JsonData::Object(
            Seq::new(members@.len(), |i: int| (members@[i].0@, members@[i].1.data())),
        ),
{
    match v {
        JsonValue::Array(items) => {
            assert(v.data()->Array_0 =~= datas(items@));
        },
        JsonValue::Object(members) => {
            assert(v.data()->Object_0 =~= Seq::new(members@.len(), |i: int| (members@[i].0@, members@[i].1.data())));
        },
        _ => {},
    }
}

impl JsonValue {
    /// A copy of the value with the same content.
    pub fn deep_copy(&self) -> (r: JsonValue)
        ensures
            r.data() == self.data(),
        decreases self,
    {
        proof {
            lemma_array_data(self);
        }
        match self {
            JsonValue::Null => JsonValue::Null,
            JsonValue::Bool(b) => JsonValue::Bool(*b),
            JsonValue::Number(n) => JsonValue::Number(String::from_str(n.as_str())),
            JsonValue::String(s) => JsonValue::String(String::from_str(s.as_str())),
            JsonValue::Array(items) => {
                let mut out: Vec<JsonValue> = Vec::new();
                let mut i: usize = 0;
                while i < items.len()
                    invariant
                        i <= items@.len(),
                        out@.len() == i,
                        *self == JsonValue::Array(*items),
                        forall|k: int| 0 <= k < i ==> #[trigger] out@[k].data() == items@[k].data(),
                    decreases items@.len() - i,
                {
                    proof {
                        assert(decreases_to!(*self => (*self)->Array_0));
                        assert(decreases_to!(*items => items@));
                        assert(decreases_to!(items@ => items@[i as int]));
                        assert(decreases_to!(*self => items@[i as int]));
                    }
                    let c = items[i].deep_copy();
                    out.push(c);
                    i = i + 1;
                }
                let r = JsonValue::Array(out);
                proof {
                    lemma_array_data(&r);
                    assert(datas(out@) =~= datas(items@));
                }
                r
            },
            JsonValue::Object(members) => {
                let mut out: Vec<(String, JsonValue)> = Vec::new();
                let mut i: usize = 0;
                while i < members.len()
                    invariant
                        i <= members@.len(),
                        out@.len() == i,
                        *self == JsonValue::Object(*members),
                        forall|k: int| 0 <= k < i ==> #[trigger] out@[k].0@ == members@[k].0@
                            && out@[k].1.data() == members@[k].1.data(),
                    decreases members@.len() - i,
                {
                    proof {
                        assert(decreases_to!(*self => (*self)->Object_0));
                        assert(decreases_to!(*members => members@));
                        assert(decreases_to!(members@ => members@[i as int]));
                        assert(decreases_to!(members@[i as int] => members@[i as int].1));
                        assert(decreases_to!(*self => members@[i as int].1));
                    }
                    let k = String::from_str(members[i].0.as_str());
                    let c = members[i].1.deep_copy();
                    out.push((k, c));
                    i = i + 1;
                }
                let r = JsonValue::Object(out);
                proof {
                    lemma_array_data(&r);
                    assert(Seq::new(out@.len(), |i: int| (out@[i].0@, out@[i].1.data())) =~= Seq::new(
                        members@.len(),
                        |i: int| (members@[i].0@, members@[i].1.data()),
                    ));
                }
                r
            },
        }
    }
}


/// The contents of object members.
pub open spec fn members_data(m: Seq<(String, JsonValue)>) -> Seq<(Seq<char>, JsonData)> {
    Seq::new(m.len(), |i: int| (m[i].0@, m[i].1.data()))
}

/// An object value with the given members, in order.
pub fn object_of(members: Vec<(String, JsonValue)>) -> (r: JsonValue)
    ensures
        r.data() == JsonData::Object(members_data(members@)),
{
    let r = JsonValue::Object(members);
    proof {
        lemma_array_data(&r);
    }
    r
}

/// An array value with the given items, in order.
pub fn array_of(items: Vec<JsonValue>) -> (r: JsonValue)
    ensures
        r.data() == JsonData::Array(datas(items@)),
{
    let r = JsonValue::Array(items);
    proof {
        lemma_array_data(&r);
    }
    r
}

/// A string value.
pub fn string_of(s: &str) -> (r: JsonValue)
    ensures
        r.data() == JsonData::Str(s@),
{
    JsonValue::String(String::from_str(s))
}

/// An object member.
pub fn member(key: &str, value: JsonValue) -> (r: (String, JsonValue))
    ensures
        r.0@ == key@,
        r.1 == value,
{
    (String::from_str(key), value)
}


/// Lower-case hexadecimal digit for `d < 16`.
pub open spec fn hex_digit(d: nat) -> char {
    if d < 10 {
        (48 + d) as char
    } else {
        (87 + d) as char
    }
}

/// JSON text of one character inside a string literal: quote and backslash
/// are escaped, control characters use their short escape or `\u00XX`.
pub open spec fn escape_json_char(c: char) -> Seq<char> {
    if c == '"' {
        seq!['\\', '"']
    } else if c == '\\' {
        seq!['\\', '\\']
    } else if c == '\x08' {
        seq!['\\', 'b']
    } else if c == '\x0C' {
        seq!['\\', 'f']
    } else if c == '\n' {
        seq!['\\', 'n']
    } else if c == '\r' {
        seq!['\\', 'r']
    } else if c == '\t' {
        seq!['\\', 't']
    } else if (c as u32) < 0x20 {
        seq!['\\', 'u', '0', '0', hex_digit((c as u32 / 16) as nat), hex_digit((c as u32 % 16) as nat)]
    } else {
        seq![c]
    }
}

pub open spec fn escape_json_fn() -> spec_fn(char) -> Seq<char> {
    |c: char| escape_json_char(c)
}

/// A JSON string literal for `s`.
pub open spec fn quote_json(s: Seq<char>) -> Seq<char> {
    seq!['"'] + concat_map(s, escape_json_fn()) + seq!['"']
}

/// Compact JSON text of a value (no insignificant whitespace).
pub open spec fn json_text(v: JsonData) -> Seq<char>
    decreases v, 0nat,
{
    match v {
        JsonData::Null => seq!['n', 'u', 'l', 'l'],
        JsonData::Bool(b) => if b { seq!['t', 'r', 'u', 'e'] } else { seq!['f', 'a', 'l', 's', 'e'] },
        JsonData::Number(n) => n,
        JsonData::Str(s) => quote_json(s),
        JsonData::Array(items) => seq!['['] + items_text(items) + seq![']'],
        JsonData::Object(members) => seq!['{'] + members_text(members) + seq!['}'],
    }
}

/// Comma-separated JSON texts of array items.
pub open spec fn items_text(items: Seq<JsonData>) -> Seq<char>
    decreases items, 1nat,
{
    if items.len() == 0 {
        Seq::empty()
    } else if items.len() == 1 {
        json_text(items[0])
    } else {
        items_text(items.drop_last()) + seq![','] + json_text(items[items.len() - 1])
    }
}

/// Comma-separated `"key":value` texts of object members.
pub open spec fn members_text(members: Seq<(Seq<char>, JsonData)>) -> Seq<char>
    decreases members, 1nat,
{
    if members.len() == 0 {
        Seq::empty()
    } else if members.len() == 1 {
        quote_json(members[0].0) + seq![':'] + json_text(members[0].1)
    } else {
        members_text(members.drop_last()) + seq![','] + quote_json(members[members.len() - 1].0)
            + seq![':'] + json_text(members[members.len() - 1].1)
    }
}

fn hex_char(d: u32) -> (c: char)
    requires
        d < 16,
    ensures
        c == hex_digit(d as nat),
{
    if d < 10 {
        ((48 + d) as u8) as char
    } else {
        ((87 + d) as u8) as char
    }
}

fn escape_json_string(c: char) -> (r: String)
    ensures
        r@ == escape_json_char(c),
{
    let mut r = String::new();
    if c == '"' {
        r.push('\\');
        r.push('"');
    } else if c == '\\' {
        r.push('\\');
        r.push('\\');
    } else if c == '\x08' {
        r.push('\\');
        r.push('b');
    } else if c == '\x0C' {
        r.push('\\');
        r.push('f');
    } else if c == '\n' {
        r.push('\\');
        r.push('n');
    } else if c == '\r' {
        r.push('\\');
        r.push('r');
    } else if c == '\t' {
        r.push('\\');
        r.push('t');
    } else if (c as u32) < 0x20 {
        let code = c as u32;
        r.push('\\');
        r.push('u');
        r.push('0');
        r.push('0');
        r.push(hex_char(code / 16));
        r.push(hex_char(code % 16));
    } else {
        r.push(c);
    }
    r
}

/// A JSON string literal for `s`.
pub fn quote_json_string(s: &str) -> (r: String)
    ensures
        r@ == quote_json(s@),
{
    let chars = chars_of(s);
    let mut inner = String::new();
    let mut i: usize = 0;
    while i < chars.len()
        invariant
            i <= chars@.len(),
            chars@ == s@,
            inner@ == concat_map(s@.take(i as int), escape_json_fn()),
        decreases chars@.len() - i,
    {
        proof {
            lemma_concat_map_step(s@, escape_json_fn(), i as int);
        }
        let e = escape_json_string(chars[i]);
        push_str(&mut inner, e.as_str());
        i = i + 1;
    }
    proof {
        crate::text::lemma_take_all(s@);
    }
    let mut r = String::new();
    r.push('"');
    push_str(&mut r, inner.as_str());
    r.push('"');
    r
}

/// Compact JSON text of a value.
pub fn json_to_string(v: &JsonValue) -> (r: String)
    ensures
        r@ == json_text(v.data()),
    decreases v,
{
    proof {
        lemma_array_data(v);
    }
    match v {
        JsonValue::Null => {
            let mut r = String::new();
            r.push('n');
            r.push('u');
            r.push('l');
            r.push('l');
            r
        },
        JsonValue::Bool(b) => {
            let mut r = String::new();
            if *b {
                r.push('t');
                r.push('r');
                r.push('u');
                r.push('e');
            } else {
                r.push('f');
                r.push('a');
                r.push('l');
                r.push('s');
                r.push('e');
            }
            r
        },
        JsonValue::Number(n) => String::from_str(n.as_str()),
        JsonValue::String(s) => quote_json_string(s.as_str()),
        JsonValue::Array(items) => {
            let ghost ds = datas(items@);
            let mut inner = String::new();
            let mut i: usize = 0;
            while i < items.len()
                invariant
                    i <= items@.len(),
                    ds == datas(items@),
                    *v == JsonValue::Array(*items),
                    inner@ == items_text(ds.take(i as int)),
                decreases items@.len() - i,
            {
                proof {
                    assert(decreases_to!(*v => (*v)->Array_0));
                    assert(decreases_to!(*items => items@));
                    assert(decreases_to!(items@ => items@[i as int]));
                    assert(decreases_to!(*v => items@[i as int]));
                }
                let t = json_to_string(&items[i]);
                proof {
                    assert(ds.take(i + 1).drop_last() =~= ds.take(i as int));
                    assert(ds.take(i + 1)[i as int] == items@[i as int].data());
                }
                if i > 0 {
                    inner.push(',');
                } else {
                    assert(ds.take(1) =~= seq![ds[0]]);
                }
                push_str(&mut inner, t.as_str());
                i = i + 1;
            }
            proof {
                crate::text::lemma_take_all(ds);
            }
            let mut r = String::new();
            r.push('[');
            push_str(&mut r, inner.as_str());
            r.push(']');
            r
        },
        JsonValue::Object(members) => {
            let ghost ms = Seq::new(members@.len(), |i: int| (members@[i].0@, members@[i].1.data()));
            let mut inner = String::new();
            let mut i: usize = 0;
            while i < members.len()
                invariant
                    i <= members@.len(),
                    ms == Seq::new(members@.len(), |i: int| (members@[i].0@, members@[i].1.data())),
                    *v == JsonValue::Object(*members),
                    inner@ == members_text(ms.take(i as int)),
                decreases members@.len() - i,
            {
                let k = quote_json_string(members[i].0.as_str());
                proof {
                    assert(decreases_to!(*v => (*v)->Object_0));
                    assert(decreases_to!(*members => members@));
                    assert(decreases_to!(members@ => members@[i as int]));
                    assert(decreases_to!(members@[i as int] => members@[i as int].1));
                    assert(decreases_to!(*v => members@[i as int].1));
                }
                let t = json_to_string(&members[i].1);
                proof {
                    assert(ms.take(i + 1).drop_last() =~= ms.take(i as int));
                    assert(ms.take(i + 1)[i as int] == ms[i as int]);
                }
                if i > 0 {
                    inner.push(',');
                } else {
                    assert(ms.take(1) =~= seq![ms[0]]);
                }
                push_str(&mut inner, k.as_str());
                inner.push(':');
                push_str(&mut inner, t.as_str());
                i = i + 1;
            }
            proof {
                crate::text::lemma_take_all(ms);
            }
            let mut r = String::new();
            r.push('{');
            push_str(&mut r, inner.as_str());
            r.push('}');
            r
        },
    }
}

} // verus!
