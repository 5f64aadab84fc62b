//! JSON documents as trees of plain values, and the parser that produces them.

use vstd::prelude::*;
use crate::text::{is_number_literal, str_eq};

verus! {

/// A JSON document.
///
/// A number is held as text, the text that the parser displays for it: an
/// integer that fits 64 bits in canonical decimal form, and any other number
/// (one with a fraction or an exponent, or a larger integer) as the decimal
/// form of the 64-bit float that the parser read it as.
#[derive(Debug, PartialEq, Eq)]
pub enum Json {
    Null,
    Bool(bool),
    Number(String),
    Str(String),
    Array(Vec<Json>),
    Object(Vec<Member>),
}

/// One `key: value` pair of a JSON object.
#[derive(Debug, PartialEq, Eq)]
pub struct Member {
    pub key: String,
    pub value: Json,
}

/// The mathematical model of a [`Json`] document.
pub enum JsonView {
    Null,
    Bool(bool),
    Number(Seq<char>),
    Str(Seq<char>),
    Array(Seq<JsonView>),
    Object(Seq<(Seq<char>, JsonView)>),
}

/// The model of a document, built from the models of its parts.
pub open spec fn json_view(json: Json) -> JsonView
    decreases json,
{
    match json {
        Json::Null => JsonView::Null,
        Json::Bool(b) => JsonView::Bool(b),
        Json::Number(n) => JsonView::Number(n@),
        Json::Str(s) => JsonView::Str(s@),
        Json::Array(items) => JsonView::Array(
            Seq::new(
                items@.len(),
                |i: int|
                    if 0 <= i < items@.len() {
                        json_view(items@[i])
                    } else {
                        JsonView::Null
                    },
            ),
        ),
        Json::Object(members) => JsonView::Object(
            Seq::new(
                members@.len(),
                |i: int|
                    if 0 <= i < members@.len() {
                        (members@[i].key@, json_view(members@[i].value))
                    } else {
                        (Seq::empty(), JsonView::Null)
                    },
            ),
        ),
    }
}

impl View for Json {
    type V = JsonView;

    open spec fn view(&self) -> JsonView {
        json_view(*self)
    }
}

/// The models of the items of an array.
pub open spec fn item_views(items: Seq<Json>) -> Seq<JsonView> {
    Seq::new(items.len(), |i: int| items[i]@)
}

/// The models of the members of an object.
pub open spec fn member_views(members: Seq<Member>) -> Seq<(Seq<char>, JsonView)> {
    Seq::new(members.len(), |i: int| (members[i].key@, members[i].value@))
}

/// The value of the first member of an object that has the given key.
pub open spec fn lookup(members: Seq<(Seq<char>, JsonView)>, key: Seq<char>) -> Option<JsonView>
    decreases members.len(),
{
    if members.len() == 0 {
        None
    } else if members[0].0 == key {
        Some(members[0].1)
    } else {
        lookup(members.drop_first(), key)
    }
}

/// The value that an object gives a key, where `null` counts as no value.
pub open spec fn present(members: Seq<(Seq<char>, JsonView)>, key: Seq<char>) -> Option<JsonView> {
    match lookup(members, key) {
        Some(JsonView::Null) => None,
        other => other,
    }
}

/// The object that lists, in order, the fields that have a value.
pub open spec fn object_of(fields: Seq<(Seq<char>, Option<JsonView>)>) -> Seq<(Seq<char>, JsonView)>
    decreases fields.len(),
{
    if fields.len() == 0 {
        Seq::empty()
    } else {
        let rest = object_of(fields.drop_last());
        match fields.last().1 {
            Some(v) => rest.push((fields.last().0, v)),
            None => rest,
        }
    }
}

/// No two fields share a key.
pub open spec fn distinct_keys(fields: Seq<(Seq<char>, Option<JsonView>)>) -> bool {
    forall|i: int, j: int|
        0 <= i < j < fields.len() ==> (#[trigger] fields[i]).0 != (#[trigger] fields[j]).0
}

/// An array shows as the models of its items.
pub proof fn lemma_array_view(items: Vec<Json>)
    ensures
        Json::Array(items)@ == JsonView::Array(item_views(items@)),
{
    assert(Json::Array(items)@->Array_0 =~= item_views(items@));
}

/// An object shows as the models of its members.
pub proof fn lemma_object_view(members: Vec<Member>)
    ensures
        Json::Object(members)@ == JsonView::Object(member_views(members@)),
{
    assert(Json::Object(members)@->Object_0 =~= member_views(members@));
}

/// A member added at the end is found only where no earlier one has its key.
pub proof fn lemma_lookup_push(
    members: Seq<(Seq<char>, JsonView)>,
    added: (Seq<char>, JsonView),
    key: Seq<char>,
)
    ensures
        lookup(members.push(added), key) == (match lookup(members, key) {
            Some(v) => Some(v),
            None => if added.0 == key {
                Some(added.1)
            } else {
                None
            },
        }),
    decreases members.len(),
{
    let all = members.push(added);
    if members.len() == 0 {
        assert(all.drop_first() =~= Seq::<(Seq<char>, JsonView)>::empty());
        assert(all[0] == added);
        assert(lookup(all.drop_first(), key) is None);
        assert(lookup(members, key) is None);
    } else {
        assert(all[0] == members[0]);
        if members[0].0 != key {
            assert(all.drop_first() =~= members.drop_first().push(added));
            lemma_lookup_push(members.drop_first(), added, key);
        }
    }
}

/// A key that no field has is not in the object.
pub proof fn lemma_object_lacks(fields: Seq<(Seq<char>, Option<JsonView>)>, key: Seq<char>)
    requires
        forall|i: int| 0 <= i < fields.len() ==> (#[trigger] fields[i]).0 != key,
    ensures
        lookup(object_of(fields), key) is None,
    decreases fields.len(),
{
    if fields.len() > 0 {
        let init = fields.drop_last();
        assert forall|i: int| 0 <= i < init.len() implies (#[trigger] init[i]).0 != key by {
            assert(init[i] == fields[i]);
        }
        lemma_object_lacks(init, key);
        assert(fields.last() == fields[fields.len() - 1]);
        match fields.last().1 {
            Some(v) => {
                lemma_lookup_push(object_of(init), (fields.last().0, v), key);
            },
            None => {},
        }
    }
}

/// With distinct keys, the object gives each field's key that field's value.
pub proof fn lemma_object_lookup(fields: Seq<(Seq<char>, Option<JsonView>)>, i: int)
    requires
        distinct_keys(fields),
        0 <= i < fields.len(),
    ensures
        lookup(object_of(fields), fields[i].0) == fields[i].1,
    decreases fields.len(),
{
    let init = fields.drop_last();
    let key = fields[i].0;
    assert(fields.last() == fields[fields.len() - 1]);
    if i == fields.len() - 1 {
        assert forall|k: int| 0 <= k < init.len() implies (#[trigger] init[k]).0 != key by {
            assert(init[k] == fields[k]);
        }
        lemma_object_lacks(init, key);
        match fields.last().1 {
            Some(v) => {
                lemma_lookup_push(object_of(init), (key, v), key);
            },
            None => {},
        }
    } else {
        assert(distinct_keys(init)) by {
            assert forall|a: int, b: int| 0 <= a < b < init.len() implies (#[trigger] init[a]).0 != (
            #[trigger] init[b]).0 by {
                assert(init[a] == fields[a]);
                assert(init[b] == fields[b]);
            }
        }
        assert(init[i] == fields[i]);
        lemma_object_lookup(init, i);
        match fields.last().1 {
            Some(v) => {
                lemma_lookup_push(object_of(init), (fields.last().0, v), key);
                if fields[i].1 is None {
                    assert(fields[i].0 != fields[fields.len() - 1].0);
                }
            },
            None => {},
        }
    }
}

/// No member of `object_of` holds `null`.
pub proof fn lemma_object_without_null(fields: Seq<(Seq<char>, Option<JsonView>)>, key: Seq<char>)
    requires
        forall|i: int| 0 <= i < fields.len() ==> (#[trigger] fields[i]).1 != Some(JsonView::Null),
    ensures
        present(object_of(fields), key) == lookup(object_of(fields), key),
    decreases fields.len(),
{
    if fields.len() > 0 {
        let init = fields.drop_last();
        assert forall|i: int| 0 <= i < init.len() implies (#[trigger] init[i]).1 != Some(
            JsonView::Null,
        ) by {
            assert(init[i] == fields[i]);
        }
        lemma_object_without_null(init, key);
        assert(fields.last() == fields[fields.len() - 1]);
        match fields.last().1 {
            Some(v) => {
                lemma_lookup_push(object_of(init), (fields.last().0, v), key);
            },
            None => {},
        }
    }
}

impl Json {
    /// The members, if this is an object.
    pub fn members(&self) -> (r: Option<&Vec<Member>>)
        ensures
            match r {
                Some(members) => self@ == JsonView::Object(member_views(members@)),
                None => !(self@ is Object),
            },
    {
        match self {
            Json::Object(members) => {
                proof {
                    lemma_object_view(*members);
                }
                Some(members)
            },
            _ => None,
        }
    }

    /// The items, if this is an array.
    pub fn items(&self) -> (r: Option<&Vec<Json>>)
        ensures
            match r {
                Some(items) => self@ == JsonView::Array(item_views(items@)),
                None => !(self@ is Array),
            },
    {
        match self {
            Json::Array(items) => {
                proof {
                    lemma_array_view(*items);
                }
                Some(items)
            },
            _ => None,
        }
    }
}

/// Finds the value of the first member with the given key.
pub fn find<'a>(members: &'a Vec<Member>, key: &str) -> (r: Option<&'a Json>)
    ensures
        match r {
            Some(value) => lookup(member_views(members@), key@) == Some(value@),
            None => lookup(member_views(members@), key@) is None,
        },
{
    let ghost all = member_views(members@);
    let n: usize = members.len();
    let mut i: usize = 0;
    assert(all.skip(0) =~= all);
    while i < n
        invariant
            i <= n,
            n == members@.len(),
            all == member_views(members@),
            lookup(all, key@) == lookup(all.skip(i as int), key@),
        decreases n - i,
    {
        let ghost rest = all.skip(i as int);
        assert(rest[0] == all[i as int]);
        assert(rest.drop_first() =~= all.skip(i + 1));
        if str_eq(members[i].key.as_str(), key) {
            return Some(&members[i].value);
        }
        i += 1;
    }
    assert(all.skip(n as int) =~= Seq::<(Seq<char>, JsonView)>::empty());
    None
}

/// Finds the value of a key, where a `null` counts as no value.
pub fn find_present<'a>(members: &'a Vec<Member>, key: &str) -> (r: Option<&'a Json>)
    ensures
        match r {
            Some(value) => present(member_views(members@), key@) == Some(value@),
            None => present(member_views(members@), key@) is None,
        },
{
    match find(members, key) {
        Some(Json::Null) => None,
        other => other,
    }
}

/// What parsing a text as JSON gives: the document, or the parser's message.
pub uninterp spec fn parsed_json(text: Seq<char>) -> Result<JsonView, Seq<char>>;

/// The model of a parse result.
pub open spec fn parse_view(r: Result<Json, String>) -> Result<JsonView, Seq<char>> {
    match r {
        Ok(json) => Ok(json@),
        Err(message) => Err(message@),
    }
}

#[verifier::external_type_specification]
#[verifier::external_body]
pub struct ExValue(serde_json::Value);

/// Copies a `serde_json::Value` into a [`Json`], variant by variant. A number
/// is copied as the text that `serde_json::Number` displays.
#[verifier::external_body]
fn json_of_value(value: &serde_json::Value) -> Json {
    match value {
        serde_json::Value::Null => Json::Null,
        serde_json::Value::Bool(b) => Json::Bool(*b),
        serde_json::Value::Number(n) => Json::Number(n.to_string()),
        serde_json::Value::String(s) => Json::Str(s.clone()),
        serde_json::Value::Array(a) => Json::Array(a.iter().map(json_of_value).collect()),
        serde_json::Value::Object(o) => Json::Object(
            o.iter().map(|(k, v)| Member { key: k.clone(), value: json_of_value(v) }).collect(),
        ),
    }
}

/// Parses a text with `serde_json::from_str`. The contract claims only that
/// the outcome is a function of the text: the document it gives, or the
/// message of the error it reports, is the one named by [`parsed_json`].
#[verifier::external_body]
fn parse_json(text: &str) -> (r: Result<Json, String>)
    ensures
        parse_view(r) == parsed_json(text@),
{
    match serde_json::from_str::<serde_json::Value>(text) {
        Ok(value) => Ok(json_of_value(&value)),
        Err(error) => Err(error.to_string()),
    }
}

/// Parses a text as one JSON document.
pub fn parse(text: &str) -> (r: Result<Json, String>)
    ensures
        parse_view(r) == parsed_json(text@),
{
    parse_json(text)
}

/// Every number in the document is held as a number literal.
pub open spec fn numbers_ok(json: JsonView) -> bool
    decreases json,
{
    match json {
        JsonView::Number(literal) => is_number_literal(literal),
        JsonView::Array(items) => forall|i: int|
            0 <= i < items.len() ==> numbers_ok(#[trigger] items[i]),
        JsonView::Object(members) => forall|i: int|
            0 <= i < members.len() ==> numbers_ok((#[trigger] members[i]).1),
        _ => true,
    }
}

/// Where every field that has a value holds only number literals, so does
/// every member of the object.
pub proof fn lemma_object_numbers(fields: Seq<(Seq<char>, Option<JsonView>)>)
    requires
        forall|i: int|
            0 <= i < fields.len() ==> ((#[trigger] fields[i]).1 matches Some(v) ==> numbers_ok(v)),
    ensures
        numbers_ok(JsonView::Object(object_of(fields))),
    decreases fields.len(),
{
    if fields.len() > 0 {
        let init = fields.drop_last();
        assert forall|i: int| 0 <= i < init.len() implies ((#[trigger] init[i]).1 matches Some(v)
            ==> numbers_ok(v)) by {
            assert(init[i] == fields[i]);
        }
        lemma_object_numbers(init);
        assert(fields.last() == fields[fields.len() - 1]);
        let members = object_of(fields);
        let before = object_of(init);
        let earlier = JsonView::Object(before);
        assert forall|j: int| 0 <= j < members.len() implies numbers_ok(
            (#[trigger] members[j]).1,
        ) by {
            if j < before.len() {
                assert(members[j] == before[j]);
                assert(numbers_ok(earlier->Object_0[j].1));
            } else {
                assert(fields[fields.len() - 1].1 == Some(members[j].1));
            }
        }
    }
}

} // verus!
