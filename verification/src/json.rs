//! The library's model of a JSON document.
//!
//! The remote service speaks JSON; this module gives the crate its own
//! tree type for such documents, [`JsonValue`], together with a
//! mathematical view ([`JsonData`]) that the contracts of the codecs are
//! stated over.  Numbers that are not integers are carried as their
//! decimal wire text, since the verifier does not reason about floating
//! point.

use vstd::prelude::*;

verus! {

/// One key/value pair of a JSON object.
#[derive(Debug, PartialEq)]
pub struct JsonMember {
    pub key: String,
    pub value: JsonValue,
}

/// A JSON document.
///
/// `Int` holds a number that fits an `i64` exactly; `Float` holds any
/// other number as its decimal wire text, since the verifier does not
/// reason about floating point.  Objects keep their members in wire
/// order.
#[derive(Debug, PartialEq)]
pub enum JsonValue {
    Null,
    Bool(bool),
    Int(i64),
    Float(String),
    Str(String),
    Arr(Vec<JsonValue>),
    Obj(Vec<JsonMember>),
}

/// The mathematical form of one object member.
#[verifier::ext_equal]
pub ghost struct JsonMemberData {
    pub key: Seq<char>,
    pub value: JsonData,
}

/// The mathematical form of a JSON document.
#[verifier::ext_equal]
pub ghost enum JsonData {
    Null,
    Bool(bool),
    Int(i64),
    Float(Seq<char>),
    Str(Seq<char>),
    Arr(Seq<JsonData>),
    Obj(Seq<JsonMemberData>),
}

/// The view of a [`JsonValue`], element by element.
pub open spec fn json_view(v: JsonValue) -> JsonData
    decreases v,
{
    match v {
        JsonValue::Null => JsonData::Null,
        JsonValue::Bool(b) => JsonData::Bool(b),
        JsonValue::Int(n) => JsonData::Int(n),
        JsonValue::Float(t) => JsonData::Float(t@),
        JsonValue::Str(s) => JsonData::Str(s@),
        JsonValue::Arr(items) => JsonData::Arr(
            Seq::new(
                items@.len(),
                |i: int|
                    if 0 <= i < items@.len() {
                        json_view(items@[i])
                    } else {
                        JsonData::Null
                    },
            ),
        ),
        JsonValue::Obj(members) => JsonData::Obj(
            Seq::new(
                members@.len(),
                |i: int|
                    if 0 <= i < members@.len() {
                        JsonMemberData {
                            key: members@[i].key@,
                            value: json_view(members@[i].value),
                        }
                    } else {
                        JsonMemberData { key: Seq::empty(), value: JsonData::Null }
                    },
            ),
        ),
    }
}

impl View for JsonValue {
    type V = JsonData;

    open spec fn view(&self) -> JsonData {
        json_view(*self)
    }
}

impl View for JsonMember {
    type V = JsonMemberData;

    open spec fn view(&self) -> JsonMemberData {
        JsonMemberData { key: self.key@, value: json_view(self.value) }
    }
}

/// A copy of a JSON document with the same view.
#[verifier::loop_isolation(false)]
pub fn clone_json(v: &JsonValue) -> (r: JsonValue)
    ensures
        r@ == v@,
    decreases *v,
{
    match v {
        JsonValue::Null => JsonValue::Null,
        JsonValue::Bool(b) => JsonValue::Bool(*b),
        JsonValue::Int(n) => JsonValue::Int(*n),
        JsonValue::Float(t) => JsonValue::Float(t.clone()),
        JsonValue::Str(s) => JsonValue::Str(s.clone()),
        JsonValue::Arr(items) => {
            let mut out: Vec<JsonValue> = Vec::new();
            let mut i: usize = 0;
            while i < items.len()
                invariant
                    i <= items@.len(),
                    out@.len() == i,
                    forall|k: int| 0 <= k < i ==> json_view(#[trigger] out@[k]) == json_view(
                        items@[k],
                    ),
                decreases items@.len() - i,
            {
                proof {
                    assert(decreases_to!(*v => (*v)->Arr_0));
                    assert(decreases_to!(*items => items@));
                    assert(decreases_to!(items@ => items@[i as int]));
                }
                out.push(clone_json(&items[i]));
                i += 1;
            }
            let result = JsonValue::Arr(out);
            proof {
                assert(json_view(result)->Arr_0 =~= json_view(*v)->Arr_0);
            }
            result
        },
        JsonValue::Obj(members) => {
            let mut out: Vec<JsonMember> = Vec::new();
            let mut i: usize = 0;
            while i < members.len()
                invariant
                    i <= members@.len(),
                    out@.len() == i,
                    forall|k: int| 0 <= k < i ==> (#[trigger] out@[k])@ == members@[k]@,
                decreases members@.len() - i,
            {
                proof {
                    assert(decreases_to!(*v => (*v)->Obj_0));
                    assert(decreases_to!(*members => members@));
                    assert(decreases_to!(members@ => members@[i as int]));
                    assert(decreases_to!(members@[i as int] => members@[i as int].value));
                }
                let copy = JsonMember {
                    key: members[i].key.clone(),
                    value: clone_json(&members[i].value),
                };
                out.push(copy);
                i += 1;
            }
            let result = JsonValue::Obj(out);
            proof {
                assert(json_view(result)->Obj_0 =~= json_view(*v)->Obj_0);
            }
            result
        },
    }
}

impl Clone for JsonValue {
    /// A copy with the same view.
    fn clone(&self) -> (r: Self)
        ensures
            r@ == self@,
    {
        clone_json(self)
    }
}

/// The value of the first member of `ms` whose key is `key`, if any.
pub open spec fn lookup(ms: Seq<JsonMemberData>, key: Seq<char>) -> Option<JsonData>
    decreases ms.len(),
{
    if ms.len() == 0 {
        None
    } else if ms[0].key == key {
        Some(ms[0].value)
    } else {
        lookup(ms.drop_first(), key)
    }
}

/// The lookup of `key` in the members of `j`, when `j` is an object.
pub open spec fn obj_lookup(j: JsonData, key: Seq<char>) -> Option<JsonData> {
    match j {
        JsonData::Obj(ms) => lookup(ms, key),
        _ => None,
    }
}

/// The views of a run of array elements.
pub open spec fn elements_view(items: Seq<JsonValue>) -> Seq<JsonData> {
    Seq::new(items.len(), |i: int| json_view(items[i]))
}

/// The views of a run of object members.
pub open spec fn members_view(ms: Seq<JsonMember>) -> Seq<JsonMemberData> {
    Seq::new(ms.len(), |i: int| ms[i]@)
}

/// The view of an array value is the element-wise view of its items.
pub proof fn lemma_arr_view(v: JsonValue)
    requires
        v is Arr,
    ensures
        json_view(v) == JsonData::Arr(elements_view(v->Arr_0@)),
{
    assert(json_view(v)->Arr_0 =~= elements_view(v->Arr_0@));
}

/// The view of an object value is the member-wise view of its members.
pub proof fn lemma_obj_view(v: JsonValue)
    requires
        v is Obj,
    ensures
        json_view(v) == JsonData::Obj(members_view(v->Obj_0@)),
{
    assert(json_view(v)->Obj_0 =~= members_view(v->Obj_0@));
}

/// Looking a key up returns the value at the first index that carries
/// the key.
pub proof fn lemma_lookup_first(ms: Seq<JsonMemberData>, key: Seq<char>, i: int)
    requires
        0 <= i < ms.len(),
        ms[i].key == key,
        forall|k: int| 0 <= k < i ==> ms[k].key != key,
    ensures
        lookup(ms, key) == Some(ms[i].value),
    decreases i,
{
    if i > 0 {
        lemma_lookup_first(ms.drop_first(), key, i - 1);
    }
}

/// Looking a key up that no member carries returns nothing.
pub proof fn lemma_lookup_absent(ms: Seq<JsonMemberData>, key: Seq<char>)
    requires
        forall|k: int| 0 <= k < ms.len() ==> ms[k].key != key,
    ensures
        lookup(ms, key) is None,
    decreases ms.len(),
{
    if ms.len() > 0 {
        lemma_lookup_absent(ms.drop_first(), key);
    }
}

/// The value of the first member carrying `key`, if any.
pub fn obj_get<'a>(members: &'a Vec<JsonMember>, key: &str) -> (r: Option<&'a JsonValue>)
    ensures
        match r {
            Some(value) => lookup(members_view(members@), key@) == Some(value@),
            None => lookup(members_view(members@), key@) is None,
        },
{
    let mut i: usize = 0;
    while i < members.len()
        invariant
            i <= members@.len(),
            forall|k: int| 0 <= k < i ==> members_view(members@)[k].key != key@,
        decreases members@.len() - i,
    {
        if crate::strutil::str_eq(members[i].key.as_str(), key) {
            proof {
                lemma_lookup_first(members_view(members@), key@, i as int);
            }
            return Some(&members[i].value);
        }
        i += 1;
    }
    proof {
        lemma_lookup_absent(members_view(members@), key@);
    }
    None
}

/// The integer member carried under `key`, if there is one.
pub fn get_i64(members: &Vec<JsonMember>, key: &str) -> (r: Option<i64>)
    ensures
        match r {
            Some(n) => lookup(members_view(members@), key@) == Some(JsonData::Int(n)),
            None => !(lookup(members_view(members@), key@) matches Some(JsonData::Int(_))),
        },
{
    match obj_get(members, key) {
        Some(JsonValue::Int(n)) => Some(*n),
        _ => None,
    }
}

/// The boolean member carried under `key`, if there is one.
pub fn get_bool(members: &Vec<JsonMember>, key: &str) -> (r: Option<bool>)
    ensures
        match r {
            Some(b) => lookup(members_view(members@), key@) == Some(JsonData::Bool(b)),
            None => !(lookup(members_view(members@), key@) matches Some(JsonData::Bool(_))),
        },
{
    match obj_get(members, key) {
        Some(JsonValue::Bool(b)) => Some(*b),
        _ => None,
    }
}

/// The string member carried under `key`, copied out, if there is one.
pub fn get_string(members: &Vec<JsonMember>, key: &str) -> (r: Option<String>)
    ensures
        match r {
            Some(s) => lookup(members_view(members@), key@) == Some(JsonData::Str(s@)),
            None => !(lookup(members_view(members@), key@) matches Some(JsonData::Str(_))),
        },
{
    match obj_get(members, key) {
        Some(JsonValue::Str(s)) => Some(s.clone()),
        _ => None,
    }
}

/// The fractional-number member carried under `key`, as its wire text,
/// if there is one.
pub fn get_float_text(members: &Vec<JsonMember>, key: &str) -> (r: Option<String>)
    ensures
        match r {
            Some(s) => lookup(members_view(members@), key@) == Some(JsonData::Float(s@)),
            None => !(lookup(members_view(members@), key@) matches Some(JsonData::Float(_))),
        },
{
    match obj_get(members, key) {
        Some(JsonValue::Float(t)) => Some(t.clone()),
        _ => None,
    }
}

/// The member carried under `key`, copied out whatever its shape, if
/// there is one.
pub fn get_value(members: &Vec<JsonMember>, key: &str) -> (r: Option<JsonValue>)
    ensures
        match r {
            Some(v) => lookup(members_view(members@), key@) == Some(v@),
            None => lookup(members_view(members@), key@) is None,
        },
{
    match obj_get(members, key) {
        Some(v) => Some(clone_json(v)),
        None => None,
    }
}

// ---------------------------------------------------------------------
// Writing a document as JSON text
// ---------------------------------------------------------------------

/// What one character becomes inside a JSON string literal.
pub open spec fn escape_char(c: char) -> Seq<char> {
    if c == '"' {
        seq!['\\', '"']
    } else if c == '\\' {
        seq!['\\', '\\']
    } else if c == '\n' {
        seq!['\\', 'n']
    } else if c == '\r' {
        seq!['\\', 'r']
    } else if c == '\t' {
        seq!['\\', 't']
    } else if (c as u32) < 32 {
        seq!['\\', 'u', '0', '0', crate::strutil::hex_digit_char(c as u32 as int / 16),
            crate::strutil::hex_digit_char(c as u32 as int % 16)]
    } else {
        seq![c]
    }
}

/// A run of characters escaped for a JSON string literal.
pub open spec fn escaped(s: Seq<char>) -> Seq<char>
    decreases s.len(),
{
    if s.len() == 0 {
        Seq::empty()
    } else {
        escaped(s.drop_last()) + escape_char(s.last())
    }
}

/// A JSON string literal: the escaped characters between quotes.
pub open spec fn string_text(s: Seq<char>) -> Seq<char> {
    seq!['"'] + escaped(s) + seq!['"']
}

/// The JSON text of a document.
pub open spec fn json_text(j: JsonData) -> Seq<char>
    decreases j,
{
    match j {
        JsonData::Null => seq!['n', 'u', 'l', 'l'],
        JsonData::Bool(b) => crate::strutil::bool_rep(b),
        JsonData::Int(n) => crate::strutil::dec_rep_signed(n as int),
        JsonData::Float(t) => t,
        JsonData::Str(s) => string_text(s),
        JsonData::Arr(elems) => seq!['['] + items_text(elems) + seq![']'],
        JsonData::Obj(ms) => seq!['{'] + members_text(ms) + seq!['}'],
    }
}

/// The comma-separated JSON texts of a run of array elements.
pub open spec fn items_text(elems: Seq<JsonData>) -> Seq<char>
    decreases elems,
{
    if elems.len() == 0 {
        Seq::empty()
    } else if elems.len() == 1 {
        json_text(elems[0])
    } else {
        items_text(elems.drop_last()) + seq![','] + json_text(elems.last())
    }
}

/// The JSON text of one object member.
pub open spec fn member_text(m: JsonMemberData) -> Seq<char>
    decreases m,
{
    string_text(m.key) + seq![':'] + json_text(m.value)
}

/// The comma-separated JSON texts of a run of object members.
pub open spec fn members_text(ms: Seq<JsonMemberData>) -> Seq<char>
    decreases ms,
{
    if ms.len() == 0 {
        Seq::empty()
    } else if ms.len() == 1 {
        member_text(ms[0])
    } else {
        members_text(ms.drop_last()) + seq![','] + member_text(ms.last())
    }
}

/// Appends the escape of one character to `out`.
fn write_escaped_char(out: &mut String, c: char)
    ensures
        final(out)@ == old(out)@ + escape_char(c),
{
    if c == '"' {
        out.append("\\\"");
        proof {
            reveal_strlit("\\\"");
            assert(out@ =~= old(out)@ + escape_char(c));
        }
    } else if c == '\\' {
        out.append("\\\\");
        proof {
            reveal_strlit("\\\\");
            assert(out@ =~= old(out)@ + escape_char(c));
        }
    } else if c == '\n' {
        out.append("\\n");
        proof {
            reveal_strlit("\\n");
            assert(out@ =~= old(out)@ + escape_char(c));
        }
    } else if c == '\r' {
        out.append("\\r");
        proof {
            reveal_strlit("\\r");
            assert(out@ =~= old(out)@ + escape_char(c));
        }
    } else if c == '\t' {
        out.append("\\t");
        proof {
            reveal_strlit("\\t");
            assert(out@ =~= old(out)@ + escape_char(c));
        }
    } else if (c as u32) < 32 {
        let code = c as u32;
        out.append("\\u00");
        crate::trusted::push_char(out, crate::strutil::hex_digit_of((code / 16) as u8));
        crate::trusted::push_char(out, crate::strutil::hex_digit_of((code % 16) as u8));
        proof {
            reveal_strlit("\\u00");
            assert(out@ =~= old(out)@ + escape_char(c));
        }
    } else {
        crate::trusted::push_char(out, c);
        proof {
            assert(out@ =~= old(out)@ + escape_char(c));
        }
    }
}

/// Appends the JSON string literal for `s` to `out`.
fn write_string_literal(out: &mut String, s: &str)
    ensures
        final(out)@ == old(out)@ + string_text(s@),
{
    crate::trusted::push_char(out, '"');
    let len = s.unicode_len();
    let mut i: usize = 0;
    while i < len
        invariant
            len == s@.len(),
            i <= len,
            out@ == old(out)@ + seq!['"'] + escaped(s@.take(i as int)),
        decreases len - i,
    {
        let c = s.get_char(i);
        write_escaped_char(out, c);
        proof {
            assert(s@.take(i + 1).drop_last() =~= s@.take(i as int));
            assert(s@.take(i + 1).last() == s@[i as int]);
            assert(out@ =~= old(out)@ + seq!['"'] + escaped(s@.take(i + 1)));
        }
        i += 1;
    }
    crate::trusted::push_char(out, '"');
    proof {
        assert(s@.take(len as int) =~= s@);
        assert(out@ =~= old(out)@ + string_text(s@));
    }
}

/// Appends the JSON text of a document to `out`.
#[verifier::loop_isolation(false)]
pub fn write_json(v: &JsonValue, out: &mut String)
    ensures
        final(out)@ == old(out)@ + json_text(v@),
    decreases *v,
{
    match v {
        JsonValue::Null => {
            out.append("null");
            proof {
                reveal_strlit("null");
                assert(out@ =~= old(out)@ + json_text(v@));
            }
        },
        JsonValue::Bool(b) => {
            crate::strutil::push_bool(out, *b);
        },
        JsonValue::Int(n) => {
            crate::strutil::push_i64_dec(out, *n);
        },
        JsonValue::Float(t) => {
            out.append(t.as_str());
        },
        JsonValue::Str(s) => {
            write_string_literal(out, s.as_str());
        },
        JsonValue::Arr(items) => {
            crate::trusted::push_char(out, '[');
            let ghost ev = json_view(*v)->Arr_0;
            proof {
                lemma_arr_view(*v);
            }
            let mut i: usize = 0;
            while i < items.len()
                invariant
                    i <= items@.len(),
                    out@ == old(out)@ + seq!['['] + items_text(ev.take(i as int)),
                decreases items@.len() - i,
            {
                if i > 0 {
                    crate::trusted::push_char(out, ',');
                }
                proof {
                    assert(decreases_to!(*v => (*v)->Arr_0));
                    assert(decreases_to!(*items => items@));
                    assert(decreases_to!(items@ => items@[i as int]));
                }
                write_json(&items[i], out);
                proof {
                    assert(ev.take(i + 1).drop_last() =~= ev.take(i as int));
                    assert(ev.take(i + 1).last() == ev[i as int]);
                    assert(ev[i as int] == json_view(items@[i as int]));
                    assert(out@ =~= old(out)@ + seq!['['] + items_text(ev.take(i + 1)));
                }
                i += 1;
            }
            crate::trusted::push_char(out, ']');
            proof {
                assert(ev.take(items@.len() as int) =~= ev);
                assert(out@ =~= old(out)@ + json_text(v@));
            }
        },
        JsonValue::Obj(members) => {
            crate::trusted::push_char(out, '{');
            let ghost mv = json_view(*v)->Obj_0;
            proof {
                lemma_obj_view(*v);
            }
            let mut i: usize = 0;
            while i < members.len()
                invariant
                    i <= members@.len(),
                    out@ == old(out)@ + seq!['{'] + members_text(mv.take(i as int)),
                decreases members@.len() - i,
            {
                if i > 0 {
                    crate::trusted::push_char(out, ',');
                }
                write_string_literal(out, members[i].key.as_str());
                crate::trusted::push_char(out, ':');
                proof {
                    assert(decreases_to!(*v => (*v)->Obj_0));
                    assert(decreases_to!(*members => members@));
                    assert(decreases_to!(members@ => members@[i as int]));
                    assert(decreases_to!(members@[i as int] => members@[i as int].value));
                }
                write_json(&members[i].value, out);
                proof {
                    let prev = mv.take(i as int);
                    let cur = mv.take(i + 1);
                    assert(cur.drop_last() =~= prev);
                    assert(cur.last() == mv[i as int]);
                    assert(mv[i as int] == members@[i as int]@);
                    assert(member_text(mv[i as int]) == string_text(members@[i as int].key@)
                        + seq![':'] + json_text(members@[i as int]@.value));
                    if i == 0 {
                        assert(members_text(cur) == member_text(mv[0]));
                    } else {
                        assert(members_text(cur) == members_text(prev) + seq![','] + member_text(
                            mv[i as int],
                        ));
                    }
                    assert(out@ =~= old(out)@ + seq!['{'] + members_text(cur));
                }
                i += 1;
            }
            crate::trusted::push_char(out, '}');
            proof {
                assert(mv.take(members@.len() as int) =~= mv);
                assert(out@ =~= old(out)@ + json_text(v@));
            }
        },
    }
}

/// The JSON string literal for `s` as a fresh string.
pub fn json_string_literal(s: &str) -> (r: String)
    ensures
        r@ == string_text(s@),
{
    let mut out = String::new();
    write_string_literal(&mut out, s);
    proof {
        assert(out@ =~= string_text(s@));
    }
    out
}

/// The JSON text of a document as a fresh string.
pub fn json_to_string(v: &JsonValue) -> (r: String)
    ensures
        r@ == json_text(v@),
{
    let mut out = String::new();
    write_json(v, &mut out);
    proof {
        assert(out@ =~= json_text(v@));
    }
    out
}

/// Parses JSON text into a document, failing on malformed text.
///
/// The parse itself is carried out by outside code; nothing is assumed
/// about the tree it hands back, and everything that reads the tree
/// afterwards is verified for every possible document.
pub fn parse_json(text: &str) -> Option<JsonValue> {
    match crate::trusted::parse_json_value(text) {
        Some(v) => Some(crate::trusted::json_of_value(v)),
        None => None,
    }
}

} // verus!
