//! The fields of a payload object: how each kind of value is read from a
//! document and written back, and what is reported when one does not fit.

use vstd::prelude::*;
use vstd::string::*;
use crate::json::{
    find_present, lemma_object_view, member_views, object_of, present, Json, JsonView, Member,
};
use crate::text::{format_i32, i32_of, integer_text, is_number, is_number_literal, parse_i32};

verus! {

/// Why a payload could not be decoded.
#[derive(Debug, PartialEq, Eq)]
pub enum DecodeError {
    /// The text is not JSON; holds the parser's message.
    Syntax(String),
    /// A list was expected.
    ExpectedArray,
    /// An object was expected.
    ExpectedObject,
    /// A required field is absent or `null`.
    MissingField(String),
    /// A field holds a value of the wrong kind, or one out of range.
    InvalidField(String),
    /// Some, but not all, of the introductory-price fields are given.
    PartialIntroPrice,
    /// A transaction that is not yet settled carries an identifier or a date.
    UnsettledDetails,
}

/// The model of a [`DecodeError`].
pub enum DecodeErrorView {
    Syntax(Seq<char>),
    ExpectedArray,
    ExpectedObject,
    MissingField(Seq<char>),
    InvalidField(Seq<char>),
    PartialIntroPrice,
    UnsettledDetails,
}

impl View for DecodeError {
    type V = DecodeErrorView;

    open spec fn view(&self) -> DecodeErrorView {
        match self {
            DecodeError::Syntax(message) => DecodeErrorView::Syntax(message@),
            DecodeError::ExpectedArray => DecodeErrorView::ExpectedArray,
            DecodeError::ExpectedObject => DecodeErrorView::ExpectedObject,
            DecodeError::MissingField(key) => DecodeErrorView::MissingField(key@),
            DecodeError::InvalidField(key) => DecodeErrorView::InvalidField(key@),
            DecodeError::PartialIntroPrice => DecodeErrorView::PartialIntroPrice,
            DecodeError::UnsettledDetails => DecodeErrorView::UnsettledDetails,
        }
    }
}

/// The message of a decode error.
pub open spec fn error_text(error: DecodeErrorView) -> Seq<char> {
    match error {
        DecodeErrorView::Syntax(message) => message,
        DecodeErrorView::ExpectedArray => "expected a list"@,
        DecodeErrorView::ExpectedObject => "expected an object"@,
        DecodeErrorView::MissingField(key) => "missing field `"@ + key + "`"@,
        DecodeErrorView::InvalidField(key) => "invalid value of field `"@ + key + "`"@,
        DecodeErrorView::PartialIntroPrice => "introductory price is incomplete"@,
        DecodeErrorView::UnsettledDetails => "identifier or date on an unsettled transaction"@,
    }
}

impl DecodeError {
    /// The message of this error.
    pub fn message(&self) -> (r: String)
        ensures
            r@ == error_text(self@),
    {
        match self {
            DecodeError::Syntax(message) => message.clone(),
            DecodeError::ExpectedArray => String::from_str("expected a list"),
            DecodeError::ExpectedObject => String::from_str("expected an object"),
            DecodeError::MissingField(key) => {
                let mut out = String::from_str("missing field `");
                out.append(key.as_str());
                out.append("`");
                out
            },
            DecodeError::InvalidField(key) => {
                let mut out = String::from_str("invalid value of field `");
                out.append(key.as_str());
                out.append("`");
                out
            },
            DecodeError::PartialIntroPrice => String::from_str("introductory price is incomplete"),
            DecodeError::UnsettledDetails => String::from_str(
                "identifier or date on an unsettled transaction",
            ),
        }
    }
}

/// The text of a JSON string.
pub open spec fn text_of(json: JsonView) -> Option<Seq<char>> {
    match json {
        JsonView::Str(s) => Some(s),
        _ => None,
    }
}

/// The literal of a JSON number, where it is one.
pub open spec fn number_of(json: JsonView) -> Option<Seq<char>> {
    match json {
        JsonView::Number(literal) => if is_number_literal(literal) {
            Some(literal)
        } else {
            None
        },
        _ => None,
    }
}

/// The `i32` that a JSON number writes in canonical decimal form.
pub open spec fn i32_from(json: JsonView) -> Option<i32> {
    match json {
        JsonView::Number(literal) => i32_of(literal),
        _ => None,
    }
}

/// What an optional field gives, once its value has been read: nothing where
/// the field is absent, the value where it fits, an error where it does not.
pub open spec fn optional_field<T>(slot: Option<JsonView>, read: Option<T>, key: Seq<char>) -> Result<
    Option<T>,
    DecodeErrorView,
> {
    match slot {
        None => Ok(None),
        Some(_) => match read {
            Some(value) => Ok(Some(value)),
            None => Err(DecodeErrorView::InvalidField(key)),
        },
    }
}

/// What a required field gives: as an optional one, but its absence is an error.
pub open spec fn required_field<T>(slot: Option<JsonView>, read: Option<T>, key: Seq<char>) -> Result<
    T,
    DecodeErrorView,
> {
    match slot {
        None => Err(DecodeErrorView::MissingField(key)),
        Some(_) => match read {
            Some(value) => Ok(value),
            None => Err(DecodeErrorView::InvalidField(key)),
        },
    }
}

/// An optional text field.
pub open spec fn optional_text_of(members: Seq<(Seq<char>, JsonView)>, key: Seq<char>) -> Result<
    Option<Seq<char>>,
    DecodeErrorView,
> {
    let slot = present(members, key);
    optional_field(slot, if slot is Some { text_of(slot->0) } else { None }, key)
}

/// A required text field.
pub open spec fn required_text_of(members: Seq<(Seq<char>, JsonView)>, key: Seq<char>) -> Result<
    Seq<char>,
    DecodeErrorView,
> {
    let slot = present(members, key);
    required_field(slot, if slot is Some { text_of(slot->0) } else { None }, key)
}

/// An optional number field, kept as its literal.
pub open spec fn optional_number_of(members: Seq<(Seq<char>, JsonView)>, key: Seq<char>) -> Result<
    Option<Seq<char>>,
    DecodeErrorView,
> {
    let slot = present(members, key);
    optional_field(slot, if slot is Some { number_of(slot->0) } else { None }, key)
}

/// A required number field, kept as its literal.
pub open spec fn required_number_of(members: Seq<(Seq<char>, JsonView)>, key: Seq<char>) -> Result<
    Seq<char>,
    DecodeErrorView,
> {
    let slot = present(members, key);
    required_field(slot, if slot is Some { number_of(slot->0) } else { None }, key)
}

/// An optional `i32` field.
pub open spec fn optional_i32_of(members: Seq<(Seq<char>, JsonView)>, key: Seq<char>) -> Result<
    Option<i32>,
    DecodeErrorView,
> {
    let slot = present(members, key);
    optional_field(slot, if slot is Some { i32_from(slot->0) } else { None }, key)
}

/// A required `i32` field.
pub open spec fn required_i32_of(members: Seq<(Seq<char>, JsonView)>, key: Seq<char>) -> Result<
    i32,
    DecodeErrorView,
> {
    let slot = present(members, key);
    required_field(slot, if slot is Some { i32_from(slot->0) } else { None }, key)
}

/// Takes what was read of a field that is given: a value that does not fit
/// is an error.
pub fn fitting<T>(read: Option<T>, key: &str) -> (r: Result<Option<T>, DecodeError>)
    ensures
        match r {
            Ok(value) => read is Some && value == read,
            Err(error) => read is None && error@ == DecodeErrorView::InvalidField(key@),
        },
{
    match read {
        Some(value) => Ok(Some(value)),
        None => Err(DecodeError::InvalidField(String::from_str(key))),
    }
}

/// Demands the value of a field that has been read as an optional one.
pub fn required<T>(value: Option<T>, key: &str) -> (r: Result<T, DecodeError>)
    ensures
        match r {
            Ok(v) => value == Some(v),
            Err(error) => value is None && error@ == DecodeErrorView::MissingField(key@),
        },
{
    match value {
        Some(v) => Ok(v),
        None => Err(DecodeError::MissingField(String::from_str(key))),
    }
}

/// Reads an optional text field.
pub fn optional_text(members: &Vec<Member>, key: &str) -> (r: Result<Option<String>, DecodeError>)
    ensures
        match r {
            Ok(Some(v)) => optional_text_of(member_views(members@), key@) == Ok::<
                Option<Seq<char>>,
                DecodeErrorView,
            >(Some(v@)),
            Ok(None) => optional_text_of(member_views(members@), key@) == Ok::<
                Option<Seq<char>>,
                DecodeErrorView,
            >(None),
            Err(e) => optional_text_of(member_views(members@), key@) == Err::<
                Option<Seq<char>>,
                DecodeErrorView,
            >(e@),
        },
{
    match find_present(members, key) {
        None => Ok(None),
        Some(Json::Str(s)) => Ok(Some(s.clone())),
        Some(_) => Err(DecodeError::InvalidField(String::from_str(key))),
    }
}

/// Reads a required text field.
pub fn required_text(members: &Vec<Member>, key: &str) -> (r: Result<String, DecodeError>)
    ensures
        match r {
            Ok(v) => required_text_of(member_views(members@), key@) == Ok::<
                Seq<char>,
                DecodeErrorView,
            >(v@),
            Err(e) => required_text_of(member_views(members@), key@) == Err::<
                Seq<char>,
                DecodeErrorView,
            >(e@),
        },
{
    required(optional_text(members, key)?, key)
}

/// Reads an optional number field as its literal.
pub fn optional_number(members: &Vec<Member>, key: &str) -> (r: Result<Option<String>, DecodeError>)
    ensures
        match r {
            Ok(Some(v)) => optional_number_of(member_views(members@), key@) == Ok::<
                Option<Seq<char>>,
                DecodeErrorView,
            >(Some(v@)),
            Ok(None) => optional_number_of(member_views(members@), key@) == Ok::<
                Option<Seq<char>>,
                DecodeErrorView,
            >(None),
            Err(e) => optional_number_of(member_views(members@), key@) == Err::<
                Option<Seq<char>>,
                DecodeErrorView,
            >(e@),
        },
{
    match find_present(members, key) {
        None => Ok(None),
        Some(Json::Number(literal)) => {
            if is_number(literal.as_str()) {
                Ok(Some(literal.clone()))
            } else {
                Err(DecodeError::InvalidField(String::from_str(key)))
            }
        },
        Some(_) => Err(DecodeError::InvalidField(String::from_str(key))),
    }
}

/// Reads a required number field as its literal.
pub fn required_number(members: &Vec<Member>, key: &str) -> (r: Result<String, DecodeError>)
    ensures
        match r {
            Ok(v) => required_number_of(member_views(members@), key@) == Ok::<
                Seq<char>,
                DecodeErrorView,
            >(v@),
            Err(e) => required_number_of(member_views(members@), key@) == Err::<
                Seq<char>,
                DecodeErrorView,
            >(e@),
        },
{
    required(optional_number(members, key)?, key)
}

/// Reads an optional `i32` field.
pub fn optional_i32(members: &Vec<Member>, key: &str) -> (r: Result<Option<i32>, DecodeError>)
    ensures
        match r {
            Ok(v) => optional_i32_of(member_views(members@), key@) == Ok::<
                Option<i32>,
                DecodeErrorView,
            >(v),
            Err(e) => optional_i32_of(member_views(members@), key@) == Err::<
                Option<i32>,
                DecodeErrorView,
            >(e@),
        },
{
    match find_present(members, key) {
        None => Ok(None),
        Some(Json::Number(literal)) => fitting(parse_i32(literal.as_str()), key),
        Some(_) => Err(DecodeError::InvalidField(String::from_str(key))),
    }
}

/// Reads a required `i32` field.
pub fn required_i32(members: &Vec<Member>, key: &str) -> (r: Result<i32, DecodeError>)
    ensures
        match r {
            Ok(v) => required_i32_of(member_views(members@), key@) == Ok::<i32, DecodeErrorView>(v),
            Err(e) => required_i32_of(member_views(members@), key@) == Err::<i32, DecodeErrorView>(
                e@,
            ),
        },
{
    required(optional_i32(members, key)?, key)
}

/// An object under construction: the members written so far, and the
/// fields, with or without a value, that they stand for.
pub struct ObjectBuilder {
    members: Vec<Member>,
    fields: Ghost<Seq<(Seq<char>, Option<JsonView>)>>,
}

/// The model of an optional document.
pub open spec fn optional_view(value: Option<Json>) -> Option<JsonView> {
    match value {
        Some(json) => Some(json@),
        None => None,
    }
}

/// What `object_of` makes of one more field.
pub proof fn lemma_object_push(
    fields: Seq<(Seq<char>, Option<JsonView>)>,
    field: (Seq<char>, Option<JsonView>),
)
    ensures
        object_of(fields.push(field)) == (match field.1 {
            Some(v) => object_of(fields).push((field.0, v)),
            None => object_of(fields),
        }),
{
    assert(fields.push(field).drop_last() =~= fields);
}

impl ObjectBuilder {
    /// The fields given so far, in order.
    pub closed spec fn fields(&self) -> Seq<(Seq<char>, Option<JsonView>)> {
        self.fields@
    }

    /// The members are those of the fields that have a value.
    pub closed spec fn wf(&self) -> bool {
        member_views(self.members@) == object_of(self.fields@)
    }

    /// An object without fields.
    pub fn new() -> (r: Self)
        ensures
            r.wf(),
            r.fields() == Seq::<(Seq<char>, Option<JsonView>)>::empty(),
    {
        let r = ObjectBuilder { members: Vec::new(), fields: Ghost(Seq::empty()) };
        assert(member_views(r.members@) =~= object_of(r.fields@));
        r
    }

    /// Gives the next field: written as a member where it has a value.
    pub fn put(&mut self, key: &str, value: Option<Json>)
        requires
            old(self).wf(),
        ensures
            final(self).wf(),
            final(self).fields() == old(self).fields().push((key@, optional_view(value))),
    {
        proof {
            lemma_object_push(self.fields@, (key@, optional_view(value)));
        }
        let ghost before = member_views(self.members@);
        self.fields = Ghost(self.fields@.push((key@, optional_view(value))));
        match value {
            Some(json) => {
                let ghost shown = json@;
                self.members.push(Member { key: String::from_str(key), value: json });
                assert(member_views(self.members@) =~= before.push((key@, shown)));
            },
            None => {},
        }
    }

    /// The finished object.
    pub fn finish(self) -> (r: Json)
        requires
            self.wf(),
        ensures
            r@ == JsonView::Object(object_of(self.fields())),
    {
        proof {
            lemma_object_view(self.members);
        }
        Json::Object(self.members)
    }
}

/// A text as a JSON string.
pub fn text_json(text: &String) -> (r: Json)
    ensures
        r@ == JsonView::Str(text@),
{
    Json::Str(text.clone())
}

/// A number literal as a JSON number.
pub fn number_json(literal: &String) -> (r: Json)
    requires
        is_number_literal(literal@),
    ensures
        r@ == JsonView::Number(literal@),
{
    Json::Number(literal.clone())
}

/// An `i32` as a JSON number.
pub fn i32_json(value: i32) -> (r: Json)
    ensures
        r@ == JsonView::Number(integer_text(value as int)),
{
    Json::Number(format_i32(value))
}

/// The model of an optional text.
pub open spec fn text_view(value: Option<String>) -> Option<Seq<char>> {
    match value {
        Some(text) => Some(text@),
        None => None,
    }
}

/// An optional text as an optional JSON string.
pub open spec fn optional_text_value(value: Option<Seq<char>>) -> Option<JsonView> {
    match value {
        Some(text) => Some(JsonView::Str(text)),
        None => None,
    }
}

/// An optional number literal as an optional JSON number.
pub open spec fn optional_number_value(value: Option<Seq<char>>) -> Option<JsonView> {
    match value {
        Some(literal) => Some(JsonView::Number(literal)),
        None => None,
    }
}

/// An optional `i32` as an optional JSON number.
pub open spec fn optional_i32_value(value: Option<i32>) -> Option<JsonView> {
    match value {
        Some(n) => Some(JsonView::Number(integer_text(n as int))),
        None => None,
    }
}

/// An optional text as an optional JSON string.
pub fn optional_text_json(value: &Option<String>) -> (r: Option<Json>)
    ensures
        optional_view(r) == optional_text_value(text_view(*value)),
{
    match value {
        Some(text) => Some(text_json(text)),
        None => None,
    }
}

/// An optional number literal as an optional JSON number.
pub fn optional_number_json(value: &Option<String>) -> (r: Option<Json>)
    requires
        text_view(*value) matches Some(literal) ==> is_number_literal(literal),
    ensures
        optional_view(r) == optional_number_value(text_view(*value)),
{
    match value {
        Some(literal) => Some(number_json(literal)),
        None => None,
    }
}

/// An optional `i32` as an optional JSON number.
pub fn optional_i32_json(value: Option<i32>) -> (r: Option<Json>)
    ensures
        optional_view(r) == optional_i32_value(value),
{
    match value {
        Some(n) => Some(i32_json(n)),
        None => None,
    }
}

/// The values of a list of results, or the first error among them.
pub open spec fn collect<T>(results: Seq<Result<T, DecodeErrorView>>) -> Result<
    Seq<T>,
    DecodeErrorView,
>
    decreases results.len(),
{
    if results.len() == 0 {
        Ok(Seq::empty())
    } else {
        match collect(results.drop_last()) {
            Err(e) => Err(e),
            Ok(values) => match results.last() {
                Err(e) => Err(e),
                Ok(value) => Ok(values.push(value)),
            },
        }
    }
}

/// What one more result adds to those collected before it.
pub proof fn lemma_collect_step<T>(results: Seq<Result<T, DecodeErrorView>>, k: int)
    requires
        0 <= k < results.len(),
    ensures
        collect(results.subrange(0, k + 1)) == (match collect(results.subrange(0, k)) {
            Err(e) => Err(e),
            Ok(values) => match results[k] {
                Err(e) => Err(e),
                Ok(value) => Ok(values.push(value)),
            },
        }),
{
    assert(results.subrange(0, k + 1).drop_last() =~= results.subrange(0, k));
}

/// An error among the first results is the error of the whole list.
pub proof fn lemma_collect_error<T>(results: Seq<Result<T, DecodeErrorView>>, k: int)
    requires
        0 <= k <= results.len(),
        collect(results.subrange(0, k)) is Err,
    ensures
        collect(results) == collect(results.subrange(0, k)),
    decreases results.len() - k,
{
    if k == results.len() {
        assert(results.subrange(0, k) =~= results);
    } else {
        lemma_collect_step(results, k);
        lemma_collect_error(results, k + 1);
    }
}

/// Results that are all values collect to those values.
pub proof fn lemma_collect_values<T>(results: Seq<Result<T, DecodeErrorView>>, values: Seq<T>)
    requires
        results.len() == values.len(),
        forall|i: int| 0 <= i < results.len() ==> #[trigger] results[i] == Ok::<T, DecodeErrorView>(
            values[i],
        ),
    ensures
        collect(results) == Ok::<Seq<T>, DecodeErrorView>(values),
    decreases results.len(),
{
    if results.len() == 0 {
        assert(values =~= Seq::<T>::empty());
    } else {
        let init = results.drop_last();
        let front = values.drop_last();
        assert forall|i: int| 0 <= i < init.len() implies #[trigger] init[i] == Ok::<
            T,
            DecodeErrorView,
        >(front[i]) by {
            assert(init[i] == results[i]);
        }
        lemma_collect_values(init, front);
        assert(results.last() == results[results.len() - 1]);
        assert(front.push(values.last()) =~= values);
    }
}

/// Where results collect to values, each result is its value.
pub proof fn lemma_collect_each<T>(results: Seq<Result<T, DecodeErrorView>>)
    requires
        collect(results) is Ok,
    ensures
        collect(results)->Ok_0.len() == results.len(),
        forall|i: int| 0 <= i < results.len() ==> #[trigger] results[i] == Ok::<T, DecodeErrorView>(
            collect(results)->Ok_0[i],
        ),
    decreases results.len(),
{
    if results.len() > 0 {
        let init = results.drop_last();
        lemma_collect_each(init);
        assert(results.last() == results[results.len() - 1]);
        assert forall|i: int| 0 <= i < results.len() implies #[trigger] results[i] == Ok::<
            T,
            DecodeErrorView,
        >(collect(results)->Ok_0[i]) by {
            if i < init.len() {
                assert(init[i] == results[i]);
            }
        }
    }
}

} // verus!
