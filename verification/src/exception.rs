//! The payload of an `exception` event.

use vstd::prelude::*;
use vstd::string::*;
use crate::json::{find_present, member_views, object_of, present, Json, JsonView, Member};
use crate::schema::{
    error_text, i32_json, required_i32, required_i32_of, required_text, required_text_of,
    text_json, text_of, DecodeError, DecodeErrorView, ObjectBuilder,
};
use crate::text::{integer_text, str_eq};

verus! {

/// The body of an exception: a numeric code and a message for people.
#[derive(Debug, Clone, PartialEq, Eq)]
pub struct ExceptionError {
    pub code: i32,
    pub message: String,
}

/// Where an exception comes from.
#[derive(Debug, Clone, Copy, PartialEq, Eq)]
pub enum ExceptionType {
    /// The platform failed a product query.
    QueryProducts,
    /// The platform failed a restore.
    RestorePurchases,
    /// The platform failed a purchase request.
    Purchase,
    /// The platform failed while reporting transactions.
    TransactionUpdated,
    /// A payload could not be decoded; made here, never sent by the platform.
    JsonParse,
}

/// What an `exception` event carries.
#[derive(Debug, Clone, PartialEq, Eq)]
pub struct ExceptionPayload {
    /// The tag, written under the key `type`.
    pub kind: ExceptionType,
    pub payload: ExceptionError,
}

/// The model of an [`ExceptionError`].
pub struct ExceptionErrorView {
    pub code: i32,
    pub message: Seq<char>,
}

/// The model of an [`ExceptionPayload`].
pub struct ExceptionPayloadView {
    pub kind: ExceptionType,
    pub payload: ExceptionErrorView,
}

impl View for ExceptionError {
    type V = ExceptionErrorView;

    open spec fn view(&self) -> ExceptionErrorView {
        ExceptionErrorView { code: self.code, message: self.message@ }
    }
}

impl View for ExceptionPayload {
    type V = ExceptionPayloadView;

    open spec fn view(&self) -> ExceptionPayloadView {
        ExceptionPayloadView { kind: self.kind, payload: self.payload@ }
    }
}

/// The code of every exception that is made here.
pub const LOCAL_CODE: i32 = -1;

/// The name that writes an exception type.
pub open spec fn exception_type_name(kind: ExceptionType) -> Seq<char> {
    match kind {
        ExceptionType::QueryProducts => "QueryProducts"@,
        ExceptionType::RestorePurchases => "RestorePurchases"@,
        ExceptionType::Purchase => "Purchase"@,
        ExceptionType::TransactionUpdated => "TransactionUpdated"@,
        ExceptionType::JsonParse => "JsonParse"@,
    }
}

/// The exception type that a name writes.
pub open spec fn exception_type_named(name: Seq<char>) -> Option<ExceptionType> {
    if name == "QueryProducts"@ {
        Some(ExceptionType::QueryProducts)
    } else if name == "RestorePurchases"@ {
        Some(ExceptionType::RestorePurchases)
    } else if name == "Purchase"@ {
        Some(ExceptionType::Purchase)
    } else if name == "TransactionUpdated"@ {
        Some(ExceptionType::TransactionUpdated)
    } else if name == "JsonParse"@ {
        Some(ExceptionType::JsonParse)
    } else {
        None
    }
}

/// The exception type that a document names.
pub open spec fn exception_type_from(json: JsonView) -> Option<ExceptionType> {
    match text_of(json) {
        Some(name) => exception_type_named(name),
        None => None,
    }
}

/// The message of an exception made for a payload that could not be decoded:
/// what went wrong, then the text as it was received.
pub open spec fn parse_failure_text(error: DecodeErrorView, text: Seq<char>) -> Seq<char> {
    "Failed to parse json: "@ + error_text(error) + ". "@ + text
}

/// The exception made for a payload that could not be decoded.
pub open spec fn parse_failure_of(error: DecodeErrorView, text: Seq<char>) -> ExceptionPayloadView {
    ExceptionPayloadView {
        kind: ExceptionType::JsonParse,
        payload: ExceptionErrorView { code: LOCAL_CODE, message: parse_failure_text(error, text) },
    }
}

/// The body that an object holds.
pub open spec fn exception_error_of(members: Seq<(Seq<char>, JsonView)>) -> Result<
    ExceptionErrorView,
    DecodeErrorView,
> {
    match required_i32_of(members, "code"@) {
        Err(e) => Err(e),
        Ok(code) => match required_text_of(members, "message"@) {
            Err(e) => Err(e),
            Ok(message) => Ok(ExceptionErrorView { code, message }),
        },
    }
}

/// The exception payload that a document holds.
pub open spec fn exception_of(json: JsonView) -> Result<ExceptionPayloadView, DecodeErrorView> {
    match json {
        JsonView::Object(members) => match present(members, "type"@) {
            None => Err(DecodeErrorView::MissingField("type"@)),
            Some(tag) => match exception_type_from(tag) {
                None => Err(DecodeErrorView::InvalidField("type"@)),
                Some(kind) => match present(members, "payload"@) {
                    None => Err(DecodeErrorView::MissingField("payload"@)),
                    Some(JsonView::Object(body)) => match exception_error_of(body) {
                        Err(e) => Err(e),
                        Ok(payload) => Ok(ExceptionPayloadView { kind, payload }),
                    },
                    Some(_) => Err(DecodeErrorView::InvalidField("payload"@)),
                },
            },
        },
        _ => Err(DecodeErrorView::ExpectedObject),
    }
}

/// The fields of an exception body, in the order they are written.
pub open spec fn exception_error_fields(error: ExceptionErrorView) -> Seq<
    (Seq<char>, Option<JsonView>),
> {
    Seq::empty().push(("code"@, Some(JsonView::Number(integer_text(error.code as int))))).push(
        ("message"@, Some(JsonView::Str(error.message))),
    )
}

/// The fields of an exception payload, in the order they are written.
pub open spec fn exception_fields(payload: ExceptionPayloadView) -> Seq<
    (Seq<char>, Option<JsonView>),
> {
    Seq::empty().push(("type"@, Some(JsonView::Str(exception_type_name(payload.kind))))).push(
        ("payload"@, Some(JsonView::Object(object_of(exception_error_fields(payload.payload))))),
    )
}

/// The document that writes an exception payload.
pub open spec fn exception_json(payload: ExceptionPayloadView) -> JsonView {
    JsonView::Object(object_of(exception_fields(payload)))
}

/// The names of the exception types are five different texts.
pub proof fn lemma_exception_type_names(kind: ExceptionType)
    ensures
        exception_type_named(exception_type_name(kind)) == Some(kind),
{
    reveal_strlit("QueryProducts");
    reveal_strlit("RestorePurchases");
    reveal_strlit("Purchase");
    reveal_strlit("TransactionUpdated");
    reveal_strlit("JsonParse");
    assert("QueryProducts"@.len() == 13);
    assert("RestorePurchases"@.len() == 16);
    assert("Purchase"@.len() == 8);
    assert("TransactionUpdated"@.len() == 18);
    assert("JsonParse"@.len() == 9);
}

impl ExceptionType {
    /// The name that writes this type.
    pub fn name(&self) -> (r: &'static str)
        ensures
            r@ == exception_type_name(*self),
    {
        match self {
            ExceptionType::QueryProducts => "QueryProducts",
            ExceptionType::RestorePurchases => "RestorePurchases",
            ExceptionType::Purchase => "Purchase",
            ExceptionType::TransactionUpdated => "TransactionUpdated",
            ExceptionType::JsonParse => "JsonParse",
        }
    }

    /// The type that a name writes.
    pub fn from_name(name: &str) -> (r: Option<ExceptionType>)
        ensures
            r == exception_type_named(name@),
    {
        if str_eq(name, "QueryProducts") {
            Some(ExceptionType::QueryProducts)
        } else if str_eq(name, "RestorePurchases") {
            Some(ExceptionType::RestorePurchases)
        } else if str_eq(name, "Purchase") {
            Some(ExceptionType::Purchase)
        } else if str_eq(name, "TransactionUpdated") {
            Some(ExceptionType::TransactionUpdated)
        } else if str_eq(name, "JsonParse") {
            Some(ExceptionType::JsonParse)
        } else {
            None
        }
    }
}

impl ExceptionError {
    /// Reads the body from the members of an object.
    pub fn decode(members: &Vec<Member>) -> (r: Result<ExceptionError, DecodeError>)
        ensures
            match r {
                Ok(error) => exception_error_of(member_views(members@)) == Ok::<
                    ExceptionErrorView,
                    DecodeErrorView,
                >(error@),
                Err(e) => exception_error_of(member_views(members@)) == Err::<
                    ExceptionErrorView,
                    DecodeErrorView,
                >(e@),
            },
    {
        let code = required_i32(members, "code")?;
        let message = required_text(members, "message")?;
        Ok(ExceptionError { code, message })
    }

    /// Writes the body as a document.
    pub fn encode(&self) -> (r: Json)
        ensures
            r@ == JsonView::Object(object_of(exception_error_fields(self@))),
    {
        let mut object = ObjectBuilder::new();
        object.put("code", Some(i32_json(self.code)));
        object.put("message", Some(text_json(&self.message)));
        object.finish()
    }
}

impl ExceptionPayload {
    /// The exception made for a payload that could not be decoded.
    pub fn parse_failure(error: &DecodeError, text: &str) -> (r: ExceptionPayload)
        ensures
            r@ == parse_failure_of(error@, text@),
    {
        let mut message = String::from_str("Failed to parse json: ");
        let reason = error.message();
        message.append(reason.as_str());
        message.append(". ");
        message.append(text);
        ExceptionPayload {
            kind: ExceptionType::JsonParse,
            payload: ExceptionError { code: LOCAL_CODE, message },
        }
    }

    /// Reads an exception payload from a document.
    pub fn decode(json: &Json) -> (r: Result<ExceptionPayload, DecodeError>)
        ensures
            match r {
                Ok(payload) => exception_of(json@) == Ok::<ExceptionPayloadView, DecodeErrorView>(
                    payload@,
                ),
                Err(e) => exception_of(json@) == Err::<ExceptionPayloadView, DecodeErrorView>(e@),
            },
    {
        let members = match json.members() {
            Some(members) => members,
            None => {
                return Err(DecodeError::ExpectedObject);
            },
        };
        let kind = match find_present(members, "type") {
            None => {
                return Err(DecodeError::MissingField(String::from_str("type")));
            },
            Some(Json::Str(name)) => match ExceptionType::from_name(name.as_str()) {
                Some(kind) => kind,
                None => {
                    return Err(DecodeError::InvalidField(String::from_str("type")));
                },
            },
            Some(_) => {
                return Err(DecodeError::InvalidField(String::from_str("type")));
            },
        };
        let body = match find_present(members, "payload") {
            None => {
                return Err(DecodeError::MissingField(String::from_str("payload")));
            },
            Some(value) => match value.members() {
                Some(body) => body,
                None => {
                    return Err(DecodeError::InvalidField(String::from_str("payload")));
                },
            },
        };
        let payload = ExceptionError::decode(body)?;
        Ok(ExceptionPayload { kind, payload })
    }

    /// Writes the exception payload as a document.
    pub fn encode(&self) -> (r: Json)
        ensures
            r@ == exception_json(self@),
    {
        let mut object = ObjectBuilder::new();
        object.put("type", Some(Json::Str(String::from_str(self.kind.name()))));
        object.put("payload", Some(self.payload.encode()));
        object.finish()
    }
}

} // verus!
