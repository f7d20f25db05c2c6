//! JSON values as the portal sends and expects them, with lookup,
//! field-to-text conversion and compact serialisation.
//!
//! Objects keep their members in the order they were read (for values that
//! come from `serde_json`, that is ascending key order, without repeated
//! keys); lookup finds the first member with the key.

use vstd::prelude::*;
use vstd::string::*;
use crate::text::{owned};

verus! {

/// A JSON number: its canonical text and, where it is an integer that fits,
/// its value as an `i64`.
pub struct JsonNumber {
    pub text: String,
    pub int: Option<i64>,
}

/// One `"key": value` member of a JSON object.
pub struct Member {
    pub key: String,
    pub value: Json,
}

pub enum Json {
    Null,
    Bool(bool),
    Number(JsonNumber),
    Str(String),
    Array(Vec<Json>),
    Object(Vec<Member>),
}

// ------------------------------------------------------------------ //
// String literals
// ------------------------------------------------------------------ //

/// A hexadecimal digit, lower case.
pub open spec fn hex_digit(d: int) -> char {
    if d < 10 {
        (48 + d) as char
    } else {
        (97 + d - 10) as char
    }
}

/// How `serde_json` writes one character inside a string literal: `"` and
/// `\` behind a backslash; backspace, tab, line feed, form feed and carriage
/// return as `\b`, `\t`, `\n`, `\f`, `\r`; the other characters below
/// U+0020 as `\u00` and two lower-case hexadecimal digits; every other
/// character as it is.
pub open spec fn escaped_char(c: char) -> Seq<char> {
    let u = c as u32;
    if c == '"' {
        seq!['\\', '"']
    } else if c == '\\' {
        seq!['\\', '\\']
    } else if u == 8 {
        seq!['\\', 'b']
    } else if u == 9 {
        seq!['\\', 't']
    } else if u == 10 {
        seq!['\\', 'n']
    } else if u == 12 {
        seq!['\\', 'f']
    } else if u == 13 {
        seq!['\\', 'r']
    } else if u < 0x20 {
        seq!['\\', 'u', '0', '0', hex_digit(u as int / 16), hex_digit(u as int % 16)]
    } else {
        seq![c]
    }
}

/// The characters of `s`, each written as `escaped_char` writes it.
pub open spec fn escaped(s: Seq<char>) -> Seq<char>
    decreases s.len(),
{
    if s.len() == 0 {
        Seq::empty()
    } else {
        escaped(s.drop_last()) + escaped_char(s.last())
    }
}

/// The JSON string literal that `serde_json` writes for `s`: `s` between
/// double quotes, each character escaped as `escaped_char` says.
pub open spec fn json_quoted(s: Seq<char>) -> Seq<char> {
    seq!['"'] + escaped(s) + seq!['"']
}

/// A character that JSON string literals hold as it is.
pub open spec fn plain_json_char(c: char) -> bool {
    c != '"' && c != '\\' && (c as u32) >= 0x20
}

pub open spec fn all_plain(s: Seq<char>) -> bool {
    forall|i: int| 0 <= i < s.len() ==> plain_json_char(#[trigger] s[i])
}

/// Where no character of `s` needs escaping, its literal is `s` between two
/// double quotes.
pub proof fn lemma_plain_quoted(s: Seq<char>)
    requires
        all_plain(s),
    ensures
        json_quoted(s) == seq!['"'] + s + seq!['"'],
{
    lemma_plain_escaped(s);
}

proof fn lemma_plain_escaped(s: Seq<char>)
    requires
        all_plain(s),
    ensures
        escaped(s) == s,
    decreases s.len(),
{
    if s.len() > 0 {
        let t = s.drop_last();
        assert(all_plain(t)) by {
            assert forall|i: int| 0 <= i < t.len() implies plain_json_char(#[trigger] t[i]) by {
                assert(t[i] == s[i]);
            }
        }
        lemma_plain_escaped(t);
        assert(plain_json_char(s[s.len() - 1]));
        assert(s =~= t + seq![s.last()]);
    }
}

/// `serde_json::to_string` on a string slice: the JSON string literal for
/// `s`, as `json_quoted` states it (the escape table of `serde_json::ser`).
/// Serialising a string does not fail.
#[verifier::external_body]
pub(crate) fn quote(s: &str) -> (r: String)
    ensures
        r@ == json_quoted(s@),
{
    match serde_json::to_string(s) {
        Ok(t) => t,
        Err(_) => String::new(),
    }
}

// ------------------------------------------------------------------ //
// Parsing
// ------------------------------------------------------------------ //

#[verifier::external_type_specification]
#[verifier::external_body]
pub struct ExParsedValue(serde_json::Value);

/// What `serde_json::from_str::<serde_json::Value>` makes of `text`, as a
/// `Json` (objects in ascending key order), or the text of its error.
pub uninterp spec fn json_parsed(text: Seq<char>) -> Result<Json, Seq<char>>;

/// `serde_json::from_str::<serde_json::Value>(text)`, its value turned into a
/// `Json` one variant for one (through `from_value`) and its error into the
/// error's text. The result is named `json_parsed`; which texts parse, and
/// to what, is left to that name.
#[verifier::external_body]
pub(crate) fn parse_json(text: &str) -> (r: Result<Json, String>)
    ensures
        match r {
            Ok(j) => json_parsed(text@) == Ok::<Json, Seq<char>>(j),
            Err(e) => json_parsed(text@) == Err::<Json, Seq<char>>(e@),
        },
{
    match serde_json::from_str::<serde_json::Value>(text) {
        Ok(v) => Ok(from_value(v)),
        Err(e) => Err(e.to_string()),
    }
}

/// A parsed `serde_json::Value` as a `Json`, variant for variant: a number
/// keeps its text and its `i64` value where it has one. Only `parse_json`
/// calls it.
#[verifier::external_body]
fn from_value(v: serde_json::Value) -> Json {
    match v {
        serde_json::Value::Null => Json::Null,
        serde_json::Value::Bool(b) => Json::Bool(b),
        serde_json::Value::Number(n) => Json::Number(JsonNumber { text: n.to_string(), int: n.as_i64() }),
        serde_json::Value::String(s) => Json::Str(s),
        serde_json::Value::Array(a) => Json::Array(a.into_iter().map(from_value).collect()),
        serde_json::Value::Object(m) => Json::Object(
            m.into_iter().map(|(key, value)| Member { key, value: from_value(value) }).collect(),
        ),
    }
}

// ------------------------------------------------------------------ //
// Compact serialisation
// ------------------------------------------------------------------ //

/// The compact JSON text of `j`: no whitespace between tokens, members in
/// their stored order.
pub open spec fn json_text(j: Json) -> Seq<char>
    decreases j,
{
    match j {
        Json::Null => "null"@,
        Json::Bool(b) => if b {
            "true"@
        } else {
            "false"@
        },
        Json::Number(n) => n.text@,
        Json::Str(s) => json_quoted(s@),
        Json::Array(items) => {
            proof {
                assert(decreases_to!(j => items));
            }
            seq!['['] + items_text(items@) + seq![']']
        },
        Json::Object(ms) => {
            proof {
                assert(decreases_to!(j => ms));
            }
            seq!['{'] + members_text(ms@) + seq!['}']
        },
    }
}

/// The texts of `items`, separated by commas.
pub open spec fn items_text(items: Seq<Json>) -> Seq<char>
    decreases items,
{
    if items.len() == 0 {
        Seq::empty()
    } else if items.len() == 1 {
        json_text(items[0])
    } else {
        items_text(items.drop_last()) + seq![','] + json_text(items.last())
    }
}

/// `"key":value` for one member.
pub open spec fn member_text(m: Member) -> Seq<char>
    decreases m,
{
    json_quoted(m.key@) + seq![':'] + json_text(m.value)
}

/// The texts of the members `ms`, separated by commas.
pub open spec fn members_text(ms: Seq<Member>) -> Seq<char>
    decreases ms,
{
    if ms.len() == 0 {
        Seq::empty()
    } else if ms.len() == 1 {
        member_text(ms[0])
    } else {
        members_text(ms.drop_last()) + seq![','] + member_text(ms.last())
    }
}

/// `Value::to_string`: the compact JSON text of `j`.
pub fn to_text(j: &Json) -> (r: String)
    ensures
        r@ == json_text(*j),
    decreases j,
{
    match j {
        Json::Null => owned("null"),
        Json::Bool(b) => if *b {
            owned("true")
        } else {
            owned("false")
        },
        Json::Number(n) => n.text.clone(),
        Json::Str(s) => quote(s.as_str()),
        Json::Array(items) => {
            proof {
                reveal_strlit("[");
                reveal_strlit(",");
                reveal_strlit("]");
            }
            let mut r = owned("[");
            let mut i: usize = 0;
            while i < items.len()
                invariant
                    *j == Json::Array(*items),
                    i <= items.len(),
                    r@ == seq!['['] + items_text(items@.take(i as int)),
                decreases items.len() - i,
            {
                proof {
                    reveal_strlit(",");
                    reveal_strlit(":");
                }
                if i > 0 {
                    r.append(",");
                }
                proof {
                    assert(decreases_to!(*j => (*j)->Array_0));
                    assert(decreases_to!(*items => items@));
                    assert(decreases_to!(items@ => items@[i as int]));
                    assert(decreases_to!(j => items@[i as int]));
                }
                let t = to_text(&items[i]);
                r.append(t.as_str());
                proof {
                    let s = items@.take(i + 1);
                    assert(s.drop_last() =~= items@.take(i as int));
                    assert(s.last() == items@[i as int]);
                    if i == 0 {
                        assert(s[0] == items@[0]);
                        assert(r@ =~= seq!['['] + items_text(s));
                    } else {
                        assert(r@ =~= seq!['['] + items_text(s));
                    }
                }
                i = i + 1;
            }
            assert(items@.take(items.len() as int) =~= items@);
            r.append("]");
            r
        },
        Json::Object(ms) => {
            proof {
                reveal_strlit("{");
                reveal_strlit(",");
                reveal_strlit(":");
                reveal_strlit("}");
            }
            let mut r = owned("{");
            let mut i: usize = 0;
            while i < ms.len()
                invariant
                    *j == Json::Object(*ms),
                    i <= ms.len(),
                    r@ == seq!['{'] + members_text(ms@.take(i as int)),
                decreases ms.len() - i,
            {
                proof {
                    reveal_strlit(",");
                    reveal_strlit(":");
                }
                if i > 0 {
                    r.append(",");
                }
                proof {
                    assert(decreases_to!(*j => (*j)->Object_0));
                    assert(decreases_to!(*ms => ms@));
                    assert(decreases_to!(ms@ => ms@[i as int]));
                    assert(decreases_to!(ms@[i as int] => ms@[i as int].value));
                    assert(decreases_to!(j => ms@[i as int].value));
                }
                let k = quote(ms[i].key.as_str());
                let t = to_text(&ms[i].value);
                r.append(k.as_str());
                r.append(":");
                r.append(t.as_str());
                proof {
                    let s = ms@.take(i + 1);
                    assert(s.drop_last() =~= ms@.take(i as int));
                    assert(s.last() == ms@[i as int]);
                    assert(member_text(ms@[i as int]) == k@ + seq![':'] + t@);
                    if i == 0 {
                        assert(s[0] == ms@[0]);
                        assert(r@ =~= seq!['{'] + members_text(s));
                    } else {
                        assert(r@ =~= seq!['{'] + members_text(s));
                    }
                }
                i = i + 1;
            }
            assert(ms@.take(ms.len() as int) =~= ms@);
            r.append("}");
            r
        },
    }
}

// ------------------------------------------------------------------ //
// Lookup
// ------------------------------------------------------------------ //

/// The value of the first member of `ms` whose key is `key`.
pub open spec fn lookup(ms: Seq<Member>, key: Seq<char>) -> Option<Json>
    decreases ms.len(),
{
    if ms.len() == 0 {
        None
    } else if ms[0].key@ == key {
        Some(ms[0].value)
    } else {
        lookup(ms.drop_first(), key)
    }
}

/// `Value::get(key)`: the member `key` of an object; `None` for a missing
/// key or for a value that is no object.
pub open spec fn get_spec(j: Json, key: Seq<char>) -> Option<Json> {
    match j {
        Json::Object(ms) => lookup(ms@, key),
        _ => None,
    }
}

/// `Value::as_i64`.
pub open spec fn int_of(j: Option<Json>) -> Option<i64> {
    match j {
        Some(Json::Number(n)) => n.int,
        _ => None,
    }
}

/// `Value::as_bool`.
pub open spec fn bool_of(j: Option<Json>) -> Option<bool> {
    match j {
        Some(Json::Bool(b)) => Some(b),
        _ => None,
    }
}

/// `str_of`: the member `key` of `v` as text. A string gives itself, a number
/// its digits, a boolean `true`/`false`, null or a missing member the empty
/// text, an array or object its compact JSON text.
pub open spec fn str_of_spec(v: Json, key: Seq<char>) -> Seq<char> {
    match get_spec(v, key) {
        Some(Json::Str(s)) => s@,
        Some(Json::Number(n)) => n.text@,
        Some(Json::Bool(b)) => if b {
            "true"@
        } else {
            "false"@
        },
        Some(Json::Null) => Seq::empty(),
        None => Seq::empty(),
        Some(other) => json_text(other),
    }
}

/// The member `key` of `v`, or `Null` where there is none
/// (`v.get(key).cloned().unwrap_or(Value::Null)`).
pub open spec fn member_or_null(v: Json, key: Seq<char>) -> Json {
    match get_spec(v, key) {
        Some(d) => d,
        None => Json::Null,
    }
}

proof fn lemma_lookup_skip(ms: Seq<Member>, key: Seq<char>, i: int)
    requires
        0 <= i <= ms.len(),
        forall|j: int| 0 <= j < i ==> (#[trigger] ms[j]).key@ != key,
    ensures
        lookup(ms, key) == lookup(ms.skip(i), key),
    decreases i,
{
    if i > 0 {
        assert(ms.drop_first().skip(i - 1) =~= ms.skip(i));
        assert(ms[0].key@ != key);
        lemma_lookup_skip(ms.drop_first(), key, i - 1);
    } else {
        assert(ms.skip(0) =~= ms);
    }
}

impl Json {
    /// `Value::get`.
    pub fn get(&self, key: &str) -> (r: Option<&Json>)
        ensures
            match r {
                Some(x) => get_spec(*self, key@) == Some(*x),
                None => get_spec(*self, key@) is None,
            },
    {
        match self {
            Json::Object(ms) => {
                let k = owned(key);
                let mut i: usize = 0;
                while i < ms.len()
                    invariant
                        *self == Json::Object(*ms),
                        k@ == key@,
                        i <= ms.len(),
                        forall|j: int| 0 <= j < i ==> (#[trigger] ms@[j]).key@ != key@,
                    decreases ms.len() - i,
                {
                    if ms[i].key == k {
                        proof {
                            lemma_lookup_skip(ms@, key@, i as int);
                            assert(ms@.skip(i as int)[0] == ms@[i as int]);
                            assert(ms@[i as int].key@ == key@);
                            assert(lookup(ms@.skip(i as int), key@) == Some(ms@[i as int].value));
                        }
                        return Some(&ms[i].value);
                    }
                    i = i + 1;
                }
                proof {
                    lemma_lookup_skip(ms@, key@, i as int);
                }
                None
            },
            _ => None,
        }
    }

    /// `Value::as_i64` on the member `key`.
    pub fn int_member(&self, key: &str) -> (r: Option<i64>)
        ensures
            r == int_of(get_spec(*self, key@)),
    {
        match self.get(key) {
            Some(Json::Number(n)) => n.int,
            _ => None,
        }
    }

    /// `Value::as_bool` on the member `key`.
    pub fn bool_member(&self, key: &str) -> (r: Option<bool>)
        ensures
            r == bool_of(get_spec(*self, key@)),
    {
        match self.get(key) {
            Some(Json::Bool(b)) => Some(*b),
            _ => None,
        }
    }
}

/// `str_of(v, key)`: the member `key` of `v` as text.
pub fn str_of(v: &Json, key: &str) -> (r: String)
    ensures
        r@ == str_of_spec(*v, key@),
{
    match v.get(key) {
        Some(Json::Str(s)) => s.clone(),
        Some(Json::Number(n)) => n.text.clone(),
        Some(Json::Bool(b)) => if *b {
            owned("true")
        } else {
            owned("false")
        },
        Some(Json::Null) => String::new(),
        None => String::new(),
        Some(other) => to_text(other),
    }
}

} // verus!
