//! A plain model of a decoded JSON document, with the lookups that the
//! 17TRACK and classifier replies are read by.

use vstd::prelude::*;
use crate::number::{parse_int, parse_u64};
use crate::text::{chars_of, same_text};

verus! {

/// A decoded JSON value.
#[derive(Debug)]
pub enum JsonValue {
    Null,
    Bool(bool),
    /// A number, with its value where it is an integer that fits an `i64`.
    Number(Option<i64>),
    Str(String),
    Array(Vec<JsonItem>),
    /// Members in document order; keys are distinct.
    Object(Vec<(String, JsonValue)>),
}

/// An element of a JSON array, with its compact JSON text.
#[derive(Debug)]
pub struct JsonItem {
    pub value: JsonValue,
    pub text: String,
}

/// The value of the first member named `key`.
pub open spec fn member_lookup(m: Seq<(String, JsonValue)>, key: Seq<char>) -> Option<JsonValue>
    decreases m.len(),
{
    if m.len() == 0 {
        None
    } else if m[0].0@ == key {
        Some(m[0].1)
    } else {
        member_lookup(m.drop_first(), key)
    }
}

/// `Value::get(key)`: the member `key` of an object; nothing for other values.
pub open spec fn json_get(v: JsonValue, key: Seq<char>) -> Option<JsonValue> {
    match v {
        JsonValue::Object(m) => member_lookup(m@, key),
        _ => None,
    }
}

/// The array position that a JSON Pointer token names: digits without a
/// sign and without a leading zero (other than "0" itself).
pub open spec fn pointer_index(tok: Seq<char>) -> Option<int> {
    if tok.len() > 0 && tok[0] == '+' {
        None
    } else if tok.len() > 1 && tok[0] == '0' {
        None
    } else {
        match parse_int(tok, false, u64::MAX as int, 0) {
            Ok(n) => Some(n),
            Err(_) => None,
        }
    }
}

/// One JSON Pointer step: an object member, or an array element by position.
pub open spec fn json_step(v: JsonValue, tok: Seq<char>) -> Option<JsonValue> {
    match v {
        JsonValue::Object(m) => member_lookup(m@, tok),
        JsonValue::Array(items) => match pointer_index(tok) {
            Some(i) => if i < items@.len() {
                Some(items@[i].value)
            } else {
                None
            },
            None => None,
        },
        _ => None,
    }
}

/// `Value::pointer` for a pointer made of these tokens (none holding `~` or `/`).
pub open spec fn json_pointer(v: JsonValue, toks: Seq<Seq<char>>) -> Option<JsonValue>
    decreases toks.len(),
{
    if toks.len() == 0 {
        Some(v)
    } else {
        match json_step(v, toks[0]) {
            Some(c) => json_pointer(c, toks.drop_first()),
            None => None,
        }
    }
}

/// Indexing by position: the `i`-th element of an array; nothing otherwise.
pub open spec fn json_index(v: JsonValue, i: int) -> Option<JsonValue> {
    match v {
        JsonValue::Array(items) => if 0 <= i < items@.len() {
            Some(items@[i].value)
        } else {
            None
        },
        _ => None,
    }
}

/// `Value::as_str`.
pub open spec fn json_str(v: Option<JsonValue>) -> Option<Seq<char>> {
    match v {
        Some(JsonValue::Str(s)) => Some(s@),
        _ => None,
    }
}

/// `Value::as_i64`.
pub open spec fn json_i64(v: Option<JsonValue>) -> Option<i64> {
    match v {
        Some(JsonValue::Number(n)) => n,
        _ => None,
    }
}

/// The optional value behind an optional reference.
pub open spec fn opt_value(o: Option<&JsonValue>) -> Option<JsonValue> {
    match o {
        Some(r) => Some(*r),
        None => None,
    }
}

/// The views of optional strings.
pub open spec fn opt_string_view(o: Option<String>) -> Option<Seq<char>> {
    match o {
        Some(s) => Some(s@),
        None => None,
    }
}

/// Whether the integer `code` occurs as a number anywhere in `v`.
pub open spec fn has_code(v: JsonValue, code: i64) -> bool
    decreases v,
{
    match v {
        JsonValue::Number(n) => n == Some(code),
        JsonValue::Array(items) => elements_have_code(items@, code),
        JsonValue::Object(m) => members_have_code(m@, code),
        _ => false,
    }
}

/// Whether `code` occurs in one of these array elements.
pub open spec fn elements_have_code(s: Seq<JsonItem>, code: i64) -> bool
    decreases s,
{
    if s.len() == 0 {
        false
    } else {
        elements_have_code(s.drop_last(), code) || has_code(s.last().value, code)
    }
}

/// Whether `code` occurs in one of these object members.
pub open spec fn members_have_code(s: Seq<(String, JsonValue)>, code: i64) -> bool
    decreases s,
{
    if s.len() == 0 {
        false
    } else {
        members_have_code(s.drop_last(), code) || has_code(s.last().1, code)
    }
}

proof fn lemma_elements_have_code(s: Seq<JsonItem>, code: i64)
    ensures
        elements_have_code(s, code) <==> exists|i: int|
            0 <= i < s.len() && #[trigger] has_code(s[i].value, code),
    decreases s.len(),
{
    if s.len() > 0 {
        lemma_elements_have_code(s.drop_last(), code);
        if elements_have_code(s, code) {
            if has_code(s.last().value, code) {
                assert(has_code(s[s.len() - 1].value, code));
            } else {
                let i = choose|i: int| 0 <= i < s.drop_last().len() && #[trigger] has_code(
                    s.drop_last()[i].value,
                    code,
                );
                assert(has_code(s[i].value, code));
            }
        }
        if exists|i: int| 0 <= i < s.len() && #[trigger] has_code(s[i].value, code) {
            let i = choose|i: int| 0 <= i < s.len() && #[trigger] has_code(s[i].value, code);
            if i < s.len() - 1 {
                assert(s.drop_last()[i] == s[i]);
            }
        }
    }
}

proof fn lemma_members_have_code(s: Seq<(String, JsonValue)>, code: i64)
    ensures
        members_have_code(s, code) <==> exists|i: int|
            0 <= i < s.len() && #[trigger] has_code(s[i].1, code),
    decreases s.len(),
{
    if s.len() > 0 {
        lemma_members_have_code(s.drop_last(), code);
        if members_have_code(s, code) {
            if has_code(s.last().1, code) {
                assert(has_code(s[s.len() - 1].1, code));
            } else {
                let i = choose|i: int| 0 <= i < s.drop_last().len() && #[trigger] has_code(
                    s.drop_last()[i].1,
                    code,
                );
                assert(has_code(s[i].1, code));
            }
        }
        if exists|i: int| 0 <= i < s.len() && #[trigger] has_code(s[i].1, code) {
            let i = choose|i: int| 0 <= i < s.len() && #[trigger] has_code(s[i].1, code);
            if i < s.len() - 1 {
                assert(s.drop_last()[i] == s[i]);
            }
        }
    }
}

impl JsonValue {
    /// The member `key` of an object; nothing for other values.
    pub fn get(&self, key: &str) -> (res: Option<&JsonValue>)
        ensures
            opt_value(res) == json_get(*self, key@),
    {
        match self {
            JsonValue::Object(m) => {
                let mut i: usize = 0;
                assert(m@.skip(0) == m@);
                while i < m.len()
                    invariant
                        *self == JsonValue::Object(*m),
                        i <= m@.len(),
                        member_lookup(m@, key@) == member_lookup(m@.skip(i as int), key@),
                    decreases m@.len() - i,
                {
                    assert(m@.skip(i as int)[0] == m@[i as int]);
                    assert(m@.skip(i as int).drop_first() == m@.skip(i + 1));
                    if same_text(m[i].0.as_str(), key) {
                        return Some(&m[i].1);
                    }
                    i = i + 1;
                }
                assert(m@.skip(i as int).len() == 0);
                None
            },
            _ => None,
        }
    }

    /// One JSON Pointer step from this value.
    pub fn step(&self, tok: &str) -> (res: Option<&JsonValue>)
        ensures
            opt_value(res) == json_step(*self, tok@),
    {
        match self {
            JsonValue::Object(_) => self.get(tok),
            JsonValue::Array(items) => {
                let t = chars_of(tok);
                if t.len() > 0 && t[0] == '+' {
                    return None;
                }
                if t.len() > 1 && t[0] == '0' {
                    return None;
                }
                match parse_u64(tok) {
                    Ok(n) => {
                        if n < items.len() as u64 {
                            Some(&items[n as usize].value)
                        } else {
                            None
                        }
                    },
                    Err(_) => None,
                }
            },
            _ => None,
        }
    }

    /// The value that the JSON Pointer made of `toks` leads to.
    pub fn pointer(&self, toks: &Vec<&str>) -> (res: Option<&JsonValue>)
        ensures
            opt_value(res) == json_pointer(*self, toks@.map_values(|t: &str| t@)),
    {
        let ghost all = toks@.map_values(|t: &str| t@);
        let mut cur: &JsonValue = self;
        let mut i: usize = 0;
        assert(all.skip(0) == all);
        while i < toks.len()
            invariant
                i <= toks@.len(),
                all == toks@.map_values(|t: &str| t@),
                json_pointer(*self, all) == json_pointer(*cur, all.skip(i as int)),
            decreases toks@.len() - i,
        {
            assert(all.skip(i as int)[0] == toks@[i as int]@);
            assert(all.skip(i as int).drop_first() == all.skip(i + 1));
            match cur.step(toks[i]) {
                Some(c) => {
                    cur = c;
                },
                None => {
                    return None;
                },
            }
            i = i + 1;
        }
        assert(all.skip(i as int).len() == 0);
        Some(cur)
    }

    /// The `i`-th element of an array; nothing for other values.
    pub fn element(&self, i: usize) -> (res: Option<&JsonValue>)
        ensures
            opt_value(res) == json_index(*self, i as int),
    {
        match self {
            JsonValue::Array(items) => {
                if i < items.len() {
                    Some(&items[i].value)
                } else {
                    None
                }
            },
            _ => None,
        }
    }

    /// The text of a string value.
    pub fn as_str(&self) -> (res: Option<&str>)
        ensures
            match res {
                Some(s) => json_str(Some(*self)) == Some(s@),
                None => json_str(Some(*self)) is None,
            },
    {
        match self {
            JsonValue::Str(s) => Some(s.as_str()),
            _ => None,
        }
    }

    /// The value of an integer that fits an `i64`.
    pub fn as_i64(&self) -> (res: Option<i64>)
        ensures
            res == json_i64(Some(*self)),
    {
        match self {
            JsonValue::Number(n) => *n,
            _ => None,
        }
    }

    /// The elements of an array.
    pub fn as_array(&self) -> (res: Option<&Vec<JsonItem>>)
        ensures
            match *self {
                JsonValue::Array(items) => res == Some(&items),
                _ => res is None,
            },
    {
        match self {
            JsonValue::Array(items) => Some(items),
            _ => None,
        }
    }
}

proof fn lemma_element_smaller(v: JsonValue, i: int)
    requires
        v is Array,
        0 <= i < v->Array_0@.len(),
    ensures
        decreases_to!(v => v->Array_0@[i].value),
{
    let m = v->Array_0;
    assert(decreases_to!(v => m));
    assert(decreases_to!(m => m@));
    assert(decreases_to!(m@ => m@[i]));
    assert(decreases_to!(m@[i] => m@[i].value));
}

proof fn lemma_member_smaller(v: JsonValue, i: int)
    requires
        v is Object,
        0 <= i < v->Object_0@.len(),
    ensures
        decreases_to!(v => v->Object_0@[i].1),
{
    let m = v->Object_0;
    assert(decreases_to!(v => m));
    assert(decreases_to!(m => m@));
    assert(decreases_to!(m@ => m@[i]));
    assert(decreases_to!(m@[i] => m@[i].1));
}

/// Whether the integer `code` occurs as a number anywhere in `value`.
pub fn contains_error_code(value: &JsonValue, code: i64) -> (res: bool)
    ensures
        res == has_code(*value, code),
    decreases value,
{
    match value {
        JsonValue::Number(n) => *n == Some(code),
        JsonValue::Array(items) => {
            for i in 0..items.len()
                invariant
                    *value == JsonValue::Array(*items),
                    forall|k: int| 0 <= k < i ==> !has_code(#[trigger] items@[k].value, code),
            {
                proof {
                    lemma_element_smaller(*value, i as int);
                }
                if contains_error_code(&items[i].value, code) {
                    proof {
                        lemma_elements_have_code(items@, code);
                    }
                    assert(has_code(items@[i as int].value, code));
                    return true;
                }
            }
            proof {
                lemma_elements_have_code(items@, code);
            }
            false
        },
        JsonValue::Object(m) => {
            for i in 0..m.len()
                invariant
                    *value == JsonValue::Object(*m),
                    forall|k: int| 0 <= k < i ==> !has_code(#[trigger] m@[k].1, code),
            {
                proof {
                    lemma_member_smaller(*value, i as int);
                }
                if contains_error_code(&m[i].1, code) {
                    proof {
                        lemma_members_have_code(m@, code);
                    }
                    assert(has_code(m@[i as int].1, code));
                    return true;
                }
            }
            proof {
                lemma_members_have_code(m@, code);
            }
            false
        },
        _ => false,
    }
}

/// `serde_json::Value`, a decoded JSON document.
#[verifier::external_type_specification]
#[verifier::external_body]
pub struct ExValue(serde_json::Value);

/// What `serde_json::from_str::<serde_json::Value>` reads from this text, in
/// the library's model (each array element with its compact text as
/// `Value`'s `Display` writes it); nothing where the text is not JSON.
pub uninterp spec fn json_text_value(text: Seq<char>) -> Option<JsonValue>;

/// Converts a decoded `serde_json::Value` node for node into the library's
/// model: numbers by `as_i64`, array elements with their `to_string` text.
#[verifier::external_body]
fn model_of(v: &serde_json::Value) -> JsonValue {
    match v {
        serde_json::Value::Null => JsonValue::Null,
        serde_json::Value::Bool(b) => JsonValue::Bool(*b),
        serde_json::Value::Number(n) => JsonValue::Number(n.as_i64()),
        serde_json::Value::String(s) => JsonValue::Str(s.clone()),
        serde_json::Value::Array(a) => JsonValue::Array(
            a.iter().map(|x| JsonItem { value: model_of(x), text: x.to_string() }).collect(),
        ),
        serde_json::Value::Object(m) => JsonValue::Object(
            m.iter().map(|(k, x)| (k.clone(), model_of(x))).collect(),
        ),
    }
}

/// Calls `serde_json::from_str::<serde_json::Value>` and converts the value
/// into the library's model; the result is named by `json_text_value`.
#[verifier::external_body]
pub(crate) fn parse_json_text(text: &str) -> (res: Option<JsonValue>)
    ensures
        res == json_text_value(text@),
{
    match serde_json::from_str::<serde_json::Value>(text) {
        Ok(v) => Some(model_of(&v)),
        Err(_) => None,
    }
}

} // verus!
