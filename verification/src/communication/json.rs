//! A JSON document as a tree of plain values.

use serde_json::Value;
use vstd::prelude::*;

verus! {

/// A parsed JSON document. Numbers keep their decimal text; the members of an
/// object are kept as a list of key and value.
pub enum Json {
    Null,
    Bool(bool),
    Number(String),
    Text(String),
    Array(Vec<Json>),
    Object(Vec<(String, Json)>),
}

/// The mathematical value of a [`Json`] tree.
pub enum JsonValue {
    Null,
    Bool(bool),
    Number(Seq<char>),
    Text(Seq<char>),
    Array(Seq<JsonValue>),
    Object(Seq<(Seq<char>, JsonValue)>),
}

impl View for Json {
    type V = JsonValue;

    open spec fn view(&self) -> JsonValue
        decreases self,
    {
        match self {
            Json::Null => JsonValue::Null,
            Json::Bool(b) => JsonValue::Bool(*b),
            Json::Number(n) => JsonValue::Number(n@),
            Json::Text(t) => JsonValue::Text(t@),
            Json::Array(items) => JsonValue::Array(
                Seq::new(
                    items@.len(),
                    |i: int|
                        if 0 <= i < items@.len() {
                            items@[i]@
                        } else {
                            JsonValue::Null
                        },
                ),
            ),
            Json::Object(members) => JsonValue::Object(
                Seq::new(
                    members@.len(),
                    |i: int|
                        if 0 <= i < members@.len() {
                            (members@[i].0@, members@[i].1@)
                        } else {
                            (Seq::empty(), JsonValue::Null)
                        },
                ),
            ),
        }
    }
}

/// `serde_json::Value`, whose contents [`value_tree`] names.
#[verifier::external_type_specification]
#[verifier::external_body]
pub struct ExValue(Value);

/// The document that `serde_json::from_str` reads from a text, or `None`
/// where it reports an error.
pub uninterp spec fn json_of_text(text: Seq<char>) -> Option<JsonValue>;

/// The document that a `serde_json::Value` holds.
pub uninterp spec fn value_tree(value: Value) -> JsonValue;

/// The lower-case hexadecimal digit of `value`, which is below sixteen.
pub open spec fn hex_digit(value: int) -> char {
    "0123456789abcdef"@[value]
}

/// One character as it stands inside a JSON string literal. The double quote
/// and the backslash get a backslash in front. Of the control characters
/// below the space, backspace, tab, line feed, form feed and carriage return
/// get their letter and the others the six characters of `\u00` and two
/// hexadecimal digits. Every other character stands for itself.
pub open spec fn escaped_char(c: char) -> Seq<char> {
    if c == '"' {
        seq!['\\', '"']
    } else if c == '\\' {
        seq!['\\', '\\']
    } else if c == '\u{8}' {
        seq!['\\', 'b']
    } else if c == '\t' {
        seq!['\\', 't']
    } else if c == '\n' {
        seq!['\\', 'n']
    } else if c == '\u{c}' {
        seq!['\\', 'f']
    } else if c == '\r' {
        seq!['\\', 'r']
    } else if (c as int) < 0x20 {
        seq!['\\', 'u', '0', '0', hex_digit((c as int) / 16), hex_digit((c as int) % 16)]
    } else {
        seq![c]
    }
}

/// A text as it stands inside a JSON string literal, character by
/// character.
pub open spec fn escaped_text(text: Seq<char>) -> Seq<char>
    decreases text.len(),
{
    if text.len() == 0 {
        Seq::empty()
    } else {
        escaped_text(text.drop_last()) + escaped_char(text.last())
    }
}

/// The JSON string literal of a text: the text between double quotes, with
/// its escapes.
pub open spec fn json_string_literal(text: Seq<char>) -> Seq<char> {
    seq!['"'] + escaped_text(text) + seq!['"']
}

/// `serde_json::from_str` to a `Value`. An error becomes `None`.
#[verifier::external_body]
fn value_from_text(text: &str) -> (value: Option<Value>)
    ensures
        match value {
            Some(v) => json_of_text(text@) == Some(value_tree(v)),
            None => json_of_text(text@) is None,
        },
{
    serde_json::from_str::<Value>(text).ok()
}

/// Turns a `serde_json::Value` into a [`Json`], variant by variant. A number
/// is kept as the text `Number`'s `Display` gives; the members of an object
/// come in the order in which its map hands them out.
#[verifier::external_body]
fn json_from_value(value: Value) -> (json: Json)
    ensures
        json@ == value_tree(value),
{
    match value {
        Value::Null => Json::Null,
        Value::Bool(b) => Json::Bool(b),
        Value::Number(n) => Json::Number(n.to_string()),
        Value::String(s) => Json::Text(s),
        Value::Array(items) => Json::Array(items.into_iter().map(json_from_value).collect()),
        Value::Object(members) => Json::Object(
            members.into_iter().map(|(k, v)| (k, json_from_value(v))).collect(),
        ),
    }
}

/// `Display` of a `serde_json::Value::String`: the text as a JSON string
/// literal, between double quotes and escaped as serde_json's escape table
/// says, which [`escaped_char`] writes out.
#[verifier::external_body]
fn string_literal(text: &str) -> (literal: String)
    ensures
        literal@ == json_string_literal(text@),
{
    Value::String(text.to_owned()).to_string()
}

/// Reads a JSON document from `text`.
pub fn parse_json(text: &str) -> (json: Option<Json>)
    ensures
        match json {
            Some(j) => json_of_text(text@) == Some(j@),
            None => json_of_text(text@) is None,
        },
{
    match value_from_text(text) {
        Some(value) => Some(json_from_value(value)),
        None => None,
    }
}

/// Appends to `out` the JSON string literal of `text`.
pub fn push_string_literal(out: &mut String, text: &str)
    ensures
        final(out)@ == old(out)@ + json_string_literal(text@),
{
    let literal = string_literal(text);
    out.append(literal.as_str());
}

/// Whether `text` reads exactly `literal`.
pub fn text_is(text: &String, literal: &str) -> (same: bool)
    ensures
        same == (text@ == literal@),
{
    let other = literal.to_owned();
    *text == other
}

/// The value of the first member named `key` among `members`.
pub open spec fn first_member(members: Seq<(Seq<char>, JsonValue)>, key: Seq<char>) -> Option<
    JsonValue,
>
    decreases members.len(),
{
    if members.len() == 0 {
        None
    } else if members[0].0 == key {
        Some(members[0].1)
    } else {
        first_member(members.drop_first(), key)
    }
}

impl JsonValue {
    /// The member named `key` of an object; `None` for anything else.
    pub open spec fn member(self, key: Seq<char>) -> Option<JsonValue> {
        match self {
            JsonValue::Object(members) => first_member(members, key),
            _ => None,
        }
    }

    /// The member named `key`, if it is a string.
    pub open spec fn text_member(self, key: Seq<char>) -> Option<Seq<char>> {
        match self.member(key) {
            Some(JsonValue::Text(t)) => Some(t),
            _ => None,
        }
    }

    /// The member named `key`, if it is a boolean.
    pub open spec fn bool_member(self, key: Seq<char>) -> Option<bool> {
        match self.member(key) {
            Some(JsonValue::Bool(b)) => Some(b),
            _ => None,
        }
    }
}

proof fn lemma_first_member_skip(members: Seq<(Seq<char>, JsonValue)>, key: Seq<char>, i: int)
    requires
        0 <= i <= members.len(),
        forall|k: int| 0 <= k < i ==> (#[trigger] members[k]).0 != key,
    ensures
        first_member(members, key) == first_member(members.skip(i), key),
    decreases i,
{
    if i == 0 {
        assert(members.skip(0) =~= members);
    } else {
        lemma_first_member_skip(members, key, i - 1);
        let rest = members.skip(i - 1);
        assert(rest[0] == members[i - 1]);
        assert(rest.drop_first() =~= members.skip(i));
    }
}

/// What the view of an object holds, member by member.
pub proof fn lemma_object_view(members: Vec<(String, Json)>)
    ensures
        Json::Object(members)@ is Object,
        (Json::Object(members)@->Object_0).len() == members@.len(),
        forall|k: int|
            0 <= k < members@.len() ==> #[trigger] (Json::Object(members)@->Object_0)[k] == (
                members@[k].0@,
                members@[k].1@,
            ),
{
    reveal_with_fuel(<Json as View>::view, 2);
}

/// What the view of an array holds, item by item.
pub proof fn lemma_array_view(items: Vec<Json>)
    ensures
        Json::Array(items)@ is Array,
        (Json::Array(items)@->Array_0).len() == items@.len(),
        forall|k: int|
            0 <= k < items@.len() ==> #[trigger] (Json::Array(items)@->Array_0)[k] == items@[k]@,
{
    reveal_with_fuel(<Json as View>::view, 2);
}

impl Json {
    /// The member named `key` of an object; `None` for anything else.
    pub fn member(&self, key: &str) -> (found: Option<&Json>)
        ensures
            match found {
                Some(j) => self@.member(key@) == Some(j@),
                None => self@.member(key@) is None,
            },
    {
        match self {
            Json::Object(members) => {
                let wanted = key.to_owned();
                let ghost all = self@->Object_0;
                proof {
                    lemma_object_view(*members);
                }
                let mut i: usize = 0;
                while i < members.len()
                    invariant
                        i <= members@.len(),
                        wanted@ == key@,
                        self@ == JsonValue::Object(all),
                        all.len() == members@.len(),
                        forall|k: int|
                            0 <= k < members@.len() ==> #[trigger] all[k] == (
                                members@[k].0@,
                                members@[k].1@,
                            ),
                        forall|k: int| 0 <= k < i ==> (#[trigger] all[k]).0 != key@,
                    decreases members@.len() - i,
                {
                    if members[i].0 == wanted {
                        proof {
                            lemma_first_member_skip(all, key@, i as int);
                            assert(all.skip(i as int)[0] == all[i as int]);
                        }
                        return Some(&members[i].1);
                    }
                    i += 1;
                }
                proof {
                    lemma_first_member_skip(all, key@, i as int);
                    assert(all.skip(i as int).len() == 0);
                }
                None
            },
            _ => None,
        }
    }

    /// The member named `key`, if it is a string.
    pub fn text_member(&self, key: &str) -> (found: Option<String>)
        ensures
            match found {
                Some(t) => self@.text_member(key@) == Some(t@),
                None => self@.text_member(key@) is None,
            },
    {
        match self.member(key) {
            Some(Json::Text(t)) => Some(t.clone()),
            _ => None,
        }
    }

    /// The member named `key`, if it is a boolean.
    pub fn bool_member(&self, key: &str) -> (found: Option<bool>)
        ensures
            found == self@.bool_member(key@),
    {
        match self.member(key) {
            Some(Json::Bool(b)) => Some(*b),
            _ => None,
        }
    }
}

} // verus!
