//! Untyped JSON values as the log carries them in its `message` payloads.

use crate::text::str_eq;
use serde_json::Value;
use vstd::prelude::*;

verus! {

/// A JSON number. Integers are held exactly; any other number is held by its
/// JSON text.
#[derive(Debug)]
pub enum JsonNumber {
    /// An integer that is zero or more.
    PosInt(u64),
    /// An integer below zero.
    NegInt(i64),
    /// A number with a fraction or an exponent, as written in JSON.
    Float(String),
}

/// A JSON value.
#[derive(Debug)]
pub enum Json {
    Null,
    Bool(bool),
    Number(JsonNumber),
    Text(String),
    Array(Vec<Json>),
    /// The members of an object, in the order of the object.
    Object(Vec<(String, Json)>),
}

/// The value of the first member named `key`.
pub open spec fn member(members: Seq<(String, Json)>, key: Seq<char>) -> Option<Json>
    decreases members.len(),
{
    if members.len() == 0 {
        None
    } else if members[0].0@ == key {
        Some(members[0].1)
    } else {
        member(members.drop_first(), key)
    }
}

/// `serde_json::Value`, which the library only hands to `serde_json`.
#[verifier::external_type_specification]
#[verifier::external_body]
pub struct ExValue(Value);

/// What `serde_json::to_string_pretty` writes for the value.
pub uninterp spec fn pretty_text(value: Json) -> Seq<char>;

/// What `serde_json::Value` displays for the value: JSON without white space.
pub uninterp spec fn compact_text(value: Json) -> Seq<char>;

/// The value as a `serde_json::Value`, for the two functions below: each
/// variant becomes the variant of the same name, a number held as text
/// becomes the number that `serde_json` reads from it, or `null` where it
/// reads none. Nothing is promised of the result.
#[verifier::external_body]
fn to_value(value: &Json) -> (out: Value) {
    match value {
        Json::Null => Value::Null,
        Json::Bool(b) => Value::Bool(*b),
        Json::Number(JsonNumber::PosInt(n)) => Value::from(*n),
        Json::Number(JsonNumber::NegInt(n)) => Value::from(*n),
        Json::Number(JsonNumber::Float(text)) => text.parse().map_or(Value::Null, Value::Number),
        Json::Text(s) => Value::String(s.clone()),
        Json::Array(items) => Value::Array(items.iter().map(to_value).collect()),
        Json::Object(members) => Value::Object(
            members.iter().map(|m| (m.0.clone(), to_value(&m.1))).collect(),
        ),
    }
}

/// `serde_json::to_string_pretty`, on the value as a `serde_json::Value`:
/// indented JSON, a function of the value alone; the empty text where
/// serializing fails.
#[verifier::external_body]
pub(crate) fn to_pretty(value: &Json) -> (text: String)
    ensures
        text@ == pretty_text(*value),
{
    serde_json::to_string_pretty(&to_value(value)).unwrap_or_default()
}

/// `Display` of `serde_json::Value`, on the value as a `serde_json::Value`:
/// JSON without white space, a function of the value alone.
#[verifier::external_body]
pub(crate) fn to_compact(value: &Json) -> (text: String)
    ensures
        text@ == compact_text(*value),
{
    to_value(value).to_string()
}

/// Whether two numbers are the same number, held the same way.
pub open spec fn same_number(a: JsonNumber, b: JsonNumber) -> bool {
    match (a, b) {
        (JsonNumber::PosInt(x), JsonNumber::PosInt(y)) => x == y,
        (JsonNumber::NegInt(x), JsonNumber::NegInt(y)) => x == y,
        (JsonNumber::Float(x), JsonNumber::Float(y)) => x@ == y@,
        _ => false,
    }
}

/// Whether two values hold the same: the same kind of value, the same
/// texts and numbers, the same elements and members in the same order.
pub open spec fn same_json(a: Json, b: Json) -> bool
    decreases a,
{
    match (a, b) {
        (Json::Null, Json::Null) => true,
        (Json::Bool(x), Json::Bool(y)) => x == y,
        (Json::Number(x), Json::Number(y)) => same_number(x, y),
        (Json::Text(x), Json::Text(y)) => x@ == y@,
        (Json::Array(x), Json::Array(y)) => x@.len() == y@.len() && forall|i: int|
            0 <= i < x@.len() ==> same_json(#[trigger] x@[i], y@[i]),
        (Json::Object(x), Json::Object(y)) => x@.len() == y@.len() && forall|i: int|
            0 <= i < x@.len() ==> (#[trigger] x@[i]).0@ == y@[i].0@ && same_json(x@[i].1, y@[i].1),
        _ => false,
    }
}

impl Clone for JsonNumber {
    fn clone(&self) -> (copy: Self)
        ensures
            same_number(*self, copy),
    {
        match self {
            JsonNumber::PosInt(n) => JsonNumber::PosInt(*n),
            JsonNumber::NegInt(n) => JsonNumber::NegInt(*n),
            JsonNumber::Float(text) => JsonNumber::Float(text.clone()),
        }
    }
}

/// Copies of the values, in order.
fn clone_values(items: &Vec<Json>) -> (copies: Vec<Json>)
    ensures
        copies@.len() == items@.len(),
        forall|i: int| 0 <= i < items@.len() ==> same_json(#[trigger] items@[i], copies@[i]),
    decreases items,
{
    let mut copies: Vec<Json> = Vec::new();
    let mut i: usize = 0;
    while i < items.len()
        invariant
            i <= items.len(),
            copies@.len() == i,
            forall|j: int| 0 <= j < i ==> same_json(#[trigger] items@[j], copies@[j]),
        decreases items.len() - i,
    {
        proof {
            vstd::std_specs::vec::axiom_vec_index_decreases(*items, i as int);
        }
        copies.push(items[i].clone());
        i = i + 1;
    }
    copies
}

/// Copies of the members, in order.
fn clone_members(members: &Vec<(String, Json)>) -> (copies: Vec<(String, Json)>)
    ensures
        copies@.len() == members@.len(),
        forall|i: int|
            0 <= i < members@.len() ==> (#[trigger] members@[i]).0@ == copies@[i].0@ && same_json(
                members@[i].1,
                copies@[i].1,
            ),
    decreases members,
{
    let mut copies: Vec<(String, Json)> = Vec::new();
    let mut i: usize = 0;
    while i < members.len()
        invariant
            i <= members.len(),
            copies@.len() == i,
            forall|j: int|
                0 <= j < i ==> (#[trigger] members@[j]).0@ == copies@[j].0@ && same_json(
                    members@[j].1,
                    copies@[j].1,
                ),
        decreases members.len() - i,
    {
        proof {
            vstd::std_specs::vec::axiom_vec_index_decreases(*members, i as int);
        }
        copies.push((members[i].0.clone(), members[i].1.clone()));
        i = i + 1;
    }
    copies
}

impl Clone for Json {
    /// A copy that holds the same as the value.
    fn clone(&self) -> (copy: Self)
        ensures
            same_json(*self, copy),
        decreases self,
    {
        match self {
            Json::Null => Json::Null,
            Json::Bool(b) => Json::Bool(*b),
            Json::Number(n) => Json::Number(n.clone()),
            Json::Text(s) => Json::Text(s.clone()),
            Json::Array(items) => Json::Array(clone_values(items)),
            Json::Object(members) => Json::Object(clone_members(members)),
        }
    }
}

impl Json {
    /// The member named `key`, when the value is an object that has one.
    pub open spec fn member_at(self, key: Seq<char>) -> Option<Json> {
        match self {
            Json::Object(members) => member(members@, key),
            _ => None,
        }
    }

    /// The text of a string value.
    pub open spec fn text(self) -> Option<Seq<char>> {
        match self {
            Json::Text(s) => Some(s@),
            _ => None,
        }
    }

    /// The value of a number that is an integer of zero or more.
    pub open spec fn unsigned(self) -> Option<u64> {
        match self {
            Json::Number(JsonNumber::PosInt(n)) => Some(n),
            _ => None,
        }
    }

    /// The value of a boolean.
    pub open spec fn boolean(self) -> Option<bool> {
        match self {
            Json::Bool(b) => Some(b),
            _ => None,
        }
    }

    /// The elements of an array.
    pub open spec fn elements(self) -> Option<Seq<Json>> {
        match self {
            Json::Array(items) => Some(items@),
            _ => None,
        }
    }

    /// The members of an object.
    pub open spec fn members(self) -> Option<Seq<(String, Json)>> {
        match self {
            Json::Object(members) => Some(members@),
            _ => None,
        }
    }

    /// The text of the member named `key`, when it is a string.
    pub open spec fn text_at(self, key: Seq<char>) -> Option<Seq<char>> {
        match self.member_at(key) {
            Some(value) => value.text(),
            None => None,
        }
    }

    /// The number of the member named `key`, when it is an integer of zero
    /// or more.
    pub open spec fn number_at(self, key: Seq<char>) -> Option<u64> {
        match self.member_at(key) {
            Some(value) => value.unsigned(),
            None => None,
        }
    }

    /// The boolean of the member named `key`, when it is one.
    pub open spec fn flag_at(self, key: Seq<char>) -> Option<bool> {
        match self.member_at(key) {
            Some(value) => value.boolean(),
            None => None,
        }
    }

    /// The elements of the member named `key`, when it is an array.
    pub open spec fn items_at(self, key: Seq<char>) -> Option<Seq<Json>> {
        match self.member_at(key) {
            Some(value) => value.elements(),
            None => None,
        }
    }

    /// The member named `key` of an object; `None` for any other value and
    /// for an object without that member.
    pub fn get(&self, key: &str) -> (found: Option<&Json>)
        ensures
            found is Some <==> self.member_at(key@) is Some,
            found matches Some(value) ==> self.member_at(key@) == Some(*value),
    {
        match self {
            Json::Object(members) => {
                let mut i: usize = 0;
                proof {
                    assert(members@.skip(0) =~= members@);
                }
                while i < members.len()
                    invariant
                        i <= members@.len(),
                        *self == Json::Object(*members),
                        member(members@, key@) == member(members@.skip(i as int), key@),
                    decreases members@.len() - i,
                {
                    proof {
                        assert(members@.skip(i as int).drop_first() =~= members@.skip(i + 1));
                        assert(members@.skip(i as int)[0] == members@[i as int]);
                    }
                    if str_eq(members[i].0.as_str(), key) {
                        return Some(&members[i].1);
                    }
                    i = i + 1;
                }
                None
            },
            _ => None,
        }
    }

    /// The text of a string value.
    pub fn as_str(&self) -> (found: Option<&str>)
        ensures
            found is Some <==> self.text() is Some,
            found matches Some(s) ==> self.text() == Some(s@),
    {
        match self {
            Json::Text(s) => Some(s.as_str()),
            _ => None,
        }
    }

    /// The value of a number that is an integer of zero or more.
    pub fn as_u64(&self) -> (found: Option<u64>)
        ensures
            found == self.unsigned(),
    {
        match self {
            Json::Number(JsonNumber::PosInt(n)) => Some(*n),
            _ => None,
        }
    }

    /// The value of a boolean.
    pub fn as_bool(&self) -> (found: Option<bool>)
        ensures
            found == self.boolean(),
    {
        match self {
            Json::Bool(b) => Some(*b),
            _ => None,
        }
    }

    /// The elements of an array.
    pub fn as_array(&self) -> (found: Option<&Vec<Json>>)
        ensures
            found is Some <==> self.elements() is Some,
            found matches Some(items) ==> self.elements() == Some(items@),
    {
        match self {
            Json::Array(items) => Some(items),
            _ => None,
        }
    }

    /// The members of an object, in its order.
    pub fn as_object(&self) -> (found: Option<&Vec<(String, Json)>>)
        ensures
            found is Some <==> self.members() is Some,
            found matches Some(members) ==> self.members() == Some(members@),
    {
        match self {
            Json::Object(members) => Some(members),
            _ => None,
        }
    }

    /// Whether the value is a string.
    pub fn is_string(&self) -> (r: bool)
        ensures
            r == (self is Text),
    {
        match self {
            Json::Text(_) => true,
            _ => false,
        }
    }

    /// Whether the value is an object.
    pub fn is_object(&self) -> (r: bool)
        ensures
            r == (self is Object),
    {
        match self {
            Json::Object(_) => true,
            _ => false,
        }
    }

    /// Whether the value is `null`.
    pub fn is_null(&self) -> (r: bool)
        ensures
            r == (self is Null),
    {
        match self {
            Json::Null => true,
            _ => false,
        }
    }

    /// Whether the value is an array.
    pub fn is_array(&self) -> (r: bool)
        ensures
            r == (self is Array),
    {
        match self {
            Json::Array(_) => true,
            _ => false,
        }
    }

    /// The number of the member named `key`, when the value is an object
    /// and that member is an integer of zero or more.
    pub fn get_u64(&self, key: &str) -> (found: Option<u64>)
        ensures
            found == self.number_at(key@),
    {
        match self.get(key) {
            Some(value) => value.as_u64(),
            None => None,
        }
    }

    /// The boolean of the member named `key`, when the value is an object
    /// and that member is a boolean.
    pub fn get_bool(&self, key: &str) -> (found: Option<bool>)
        ensures
            found == self.flag_at(key@),
    {
        match self.get(key) {
            Some(value) => value.as_bool(),
            None => None,
        }
    }

    /// The elements of the member named `key`, when the value is an object
    /// and that member is an array.
    pub fn get_array(&self, key: &str) -> (found: Option<&Vec<Json>>)
        ensures
            found is Some <==> self.items_at(key@) is Some,
            found matches Some(items) ==> self.items_at(key@) == Some(items@),
    {
        match self.get(key) {
            Some(value) => value.as_array(),
            None => None,
        }
    }

    /// The text of the member named `key`, when the value is an object and
    /// that member is a string.
    pub fn get_str(&self, key: &str) -> (found: Option<&str>)
        ensures
            found is Some <==> self.text_at(key@) is Some,
            found matches Some(s) ==> self.text_at(key@) == Some(s@),
    {
        match self.get(key) {
            Some(value) => value.as_str(),
            None => None,
        }
    }
}

} // verus!
