//! The payload decoder: what a native callback delivers becomes one event.

use vstd::prelude::*;
use vstd::string::*;
use vstd::utf8::*;
use crate::exception::{
    exception_json, exception_of, parse_failure_of, ExceptionError, ExceptionPayload,
    ExceptionPayloadView, ExceptionType,
};
use crate::global_data::{deliver, Emission, EmissionView, Emitter};
use crate::iap::{recorded, GateView, IAP};
use crate::json::{parse, parse_view, parsed_json, Json, JsonView};
use crate::product::{
    decode_products, encode_products, product_jsons, product_views, products_of, Product,
    ProductView,
};
use crate::schema::{DecodeError, DecodeErrorView};
use crate::transaction::{
    decode_transactions, encode_transactions, transaction_jsons, transaction_views,
    transactions_of, Transaction, TransactionView,
};

verus! {

/// The kinds of callback that report on a request.
#[derive(Debug, Clone, Copy, PartialEq, Eq)]
pub enum EmitEvents {
    ProductsUpdated,
    TransactionUpdated,
    RestoreCompleted,
}

/// What an event carries.
#[derive(Debug, PartialEq, Eq)]
pub enum Payload {
    Products(Vec<Product>),
    Transactions(Vec<Transaction>),
    /// The end of a restore; carries nothing.
    RestoreCompleted,
    Exception(ExceptionPayload),
}

/// The model of a [`Payload`].
pub enum PayloadView {
    Products(Seq<ProductView>),
    Transactions(Seq<TransactionView>),
    RestoreCompleted,
    Exception(ExceptionPayloadView),
}

impl View for Payload {
    type V = PayloadView;

    open spec fn view(&self) -> PayloadView {
        match self {
            Payload::Products(products) => PayloadView::Products(product_views(products@)),
            Payload::Transactions(transactions) => PayloadView::Transactions(
                transaction_views(transactions@),
            ),
            Payload::RestoreCompleted => PayloadView::RestoreCompleted,
            Payload::Exception(exception) => PayloadView::Exception(exception@),
        }
    }
}

/// The name of the event that reports a callback of the given kind.
pub open spec fn event_name(event: EmitEvents) -> Seq<char> {
    match event {
        EmitEvents::ProductsUpdated => "plugin_iap:products-updated"@,
        EmitEvents::TransactionUpdated => "plugin_iap:transactions-updated"@,
        EmitEvents::RestoreCompleted => "plugin_iap:restore-completed"@,
    }
}

/// The name of the event that reports an exception.
pub open spec fn exception_event_name() -> Seq<char> {
    "plugin_iap:exception"@
}

/// The exception type of a platform failure on the request that a callback
/// of the given kind reports on.
pub open spec fn event_exception_type(event: EmitEvents) -> ExceptionType {
    match event {
        EmitEvents::ProductsUpdated => ExceptionType::QueryProducts,
        EmitEvents::TransactionUpdated => ExceptionType::TransactionUpdated,
        EmitEvents::RestoreCompleted => ExceptionType::RestorePurchases,
    }
}

/// Every product and every transaction of the payload is well formed.
pub open spec fn payload_wf(payload: PayloadView) -> bool {
    match payload {
        PayloadView::Products(products) => forall|i: int|
            0 <= i < products.len() ==> (#[trigger] products[i]).wf(),
        PayloadView::Transactions(transactions) => forall|i: int|
            0 <= i < transactions.len() ==> (#[trigger] transactions[i]).wf(),
        _ => true,
    }
}

/// The name of the event that carries a payload.
pub open spec fn payload_name(payload: PayloadView) -> Seq<char> {
    match payload {
        PayloadView::Products(_) => event_name(EmitEvents::ProductsUpdated),
        PayloadView::Transactions(_) => event_name(EmitEvents::TransactionUpdated),
        PayloadView::RestoreCompleted => event_name(EmitEvents::RestoreCompleted),
        PayloadView::Exception(_) => exception_event_name(),
    }
}

/// The document that writes a payload; the end of a restore is written `null`.
pub open spec fn payload_json(payload: PayloadView) -> JsonView {
    match payload {
        PayloadView::Products(products) => JsonView::Array(product_jsons(products)),
        PayloadView::Transactions(transactions) => JsonView::Array(
            transaction_jsons(transactions),
        ),
        PayloadView::RestoreCompleted => JsonView::Null,
        PayloadView::Exception(exception) => exception_json(exception),
    }
}

/// The emission that carries a payload.
pub open spec fn emission_of(payload: PayloadView) -> EmissionView {
    EmissionView { name: payload_name(payload), payload: payload_json(payload) }
}

/// The payload for a text that could not be decoded.
pub open spec fn failure(error: DecodeErrorView, text: Seq<char>) -> PayloadView {
    PayloadView::Exception(parse_failure_of(error, text))
}

/// What the decoder makes of a callback of the given kind, of the text it
/// delivered and of what parsing that text gave: the typed list, or the
/// exception that tells why there is none. The end of a restore is decoded
/// without a look at the text.
pub open spec fn decoded(event: EmitEvents, parsed: Result<JsonView, Seq<char>>, text: Seq<char>) -> PayloadView {
    match event {
        EmitEvents::RestoreCompleted => PayloadView::RestoreCompleted,
        EmitEvents::ProductsUpdated => match parsed {
            Err(message) => failure(DecodeErrorView::Syntax(message), text),
            Ok(json) => match products_of(json) {
                Ok(products) => PayloadView::Products(products),
                Err(e) => failure(e, text),
            },
        },
        EmitEvents::TransactionUpdated => match parsed {
            Err(message) => failure(DecodeErrorView::Syntax(message), text),
            Ok(json) => match transactions_of(json) {
                Ok(transactions) => PayloadView::Transactions(transactions),
                Err(e) => failure(e, text),
            },
        },
    }
}

/// What the decoder makes of the text of an exception callback: the
/// exception it describes, or the one that tells why it describes none.
pub open spec fn decoded_exception(parsed: Result<JsonView, Seq<char>>, text: Seq<char>) -> ExceptionPayloadView {
    match parsed {
        Err(message) => parse_failure_of(DecodeErrorView::Syntax(message), text),
        Ok(json) => match exception_of(json) {
            Ok(exception) => exception,
            Err(e) => parse_failure_of(e, text),
        },
    }
}

/// What the typed exception callback reports: the exception of the named
/// type, or, where the name is none, the exception that says so.
pub open spec fn called_back(exception_type: Seq<char>, code: i32, message: Seq<char>) -> ExceptionPayloadView {
    match crate::exception::exception_type_named(exception_type) {
        Some(kind) => ExceptionPayloadView {
            kind,
            payload: crate::exception::ExceptionErrorView { code, message },
        },
        None => parse_failure_of(DecodeErrorView::InvalidField("type"@), exception_type),
    }
}

/// The gateway after a payload has passed: the settled transactions it
/// reports wait to be finished.
pub open spec fn noted(gate: GateView, payload: PayloadView) -> GateView {
    match payload {
        PayloadView::Transactions(transactions) => GateView {
            initialized: gate.initialized,
            pending: recorded(gate.pending, transactions),
        },
        _ => gate,
    }
}

impl EmitEvents {
    /// The name of the event that reports a callback of this kind.
    pub fn get_name(&self) -> (r: &'static str)
        ensures
            r@ == event_name(*self),
    {
        match self {
            EmitEvents::ProductsUpdated => "plugin_iap:products-updated",
            EmitEvents::TransactionUpdated => "plugin_iap:transactions-updated",
            EmitEvents::RestoreCompleted => "plugin_iap:restore-completed",
        }
    }

    /// The exception type of a platform failure on the request that a
    /// callback of this kind reports on.
    pub fn get_exception_type(&self) -> (r: ExceptionType)
        ensures
            r == event_exception_type(*self),
    {
        match self {
            EmitEvents::ProductsUpdated => ExceptionType::QueryProducts,
            EmitEvents::TransactionUpdated => ExceptionType::TransactionUpdated,
            EmitEvents::RestoreCompleted => ExceptionType::RestorePurchases,
        }
    }
}

impl Payload {
    /// Every product and every transaction of the payload is well formed:
    /// see [`Product::wf`] and [`Transaction::wf`].
    pub open spec fn wf(&self) -> bool {
        payload_wf(self@)
    }

    /// The name of the event that carries this payload.
    pub fn name(&self) -> (r: &'static str)
        ensures
            r@ == payload_name(self@),
    {
        match self {
            Payload::Products(_) => EmitEvents::ProductsUpdated.get_name(),
            Payload::Transactions(_) => EmitEvents::TransactionUpdated.get_name(),
            Payload::RestoreCompleted => EmitEvents::RestoreCompleted.get_name(),
            Payload::Exception(_) => "plugin_iap:exception",
        }
    }

    /// Writes the payload as a document.
    pub fn encode(&self) -> (r: Json)
        requires
            self.wf(),
        ensures
            r@ == payload_json(self@),
    {
        match self {
            Payload::Products(products) => {
                assert forall|i: int| 0 <= i < products@.len() implies (
                #[trigger] products@[i]).wf() by {
                    assert(product_views(products@)[i].wf());
                }
                encode_products(products)
            },
            Payload::Transactions(transactions) => encode_transactions(transactions),
            Payload::RestoreCompleted => Json::Null,
            Payload::Exception(exception) => exception.encode(),
        }
    }

    /// The emission that carries this payload.
    pub fn emission(&self) -> (r: Emission)
        requires
            self.wf(),
        ensures
            r@ == emission_of(self@),
    {
        Emission { name: String::from_str(self.name()), payload: self.encode() }
    }
}

/// Reads bytes as the text they encode, with `std::str::from_utf8`. The
/// contract claims that valid UTF-8 is accepted and that the text has
/// exactly these bytes.
#[verifier::external_body]
fn utf8_text(bytes: &[u8]) -> (r: &str)
    requires
        valid_utf8(bytes@),
    ensures
        encode_utf8(r@) == bytes@,
{
    std::str::from_utf8(bytes).unwrap()
}

/// The text that bytes encode.
pub fn text_of_bytes(bytes: &[u8]) -> (r: &str)
    requires
        valid_utf8(bytes@),
    ensures
        r@ == decode_utf8(bytes@),
{
    let text = utf8_text(bytes);
    proof {
        encode_utf8_decode_utf8(text@);
    }
    text
}

/// Decodes what a callback of the given kind delivered, from the outcome of
/// parsing its text.
pub fn decode_parsed(event: EmitEvents, parsed: Result<Json, String>, text: &str) -> (r: Payload)
    ensures
        r@ == decoded(event, parse_view(parsed), text@),
        r.wf(),
{
    match event {
        EmitEvents::RestoreCompleted => Payload::RestoreCompleted,
        EmitEvents::ProductsUpdated => match parsed {
            Err(message) => Payload::Exception(
                ExceptionPayload::parse_failure(&DecodeError::Syntax(message), text),
            ),
            Ok(json) => match decode_products(&json) {
                Ok(products) => {
                    assert forall|i: int| 0 <= i < products@.len() implies (
                    #[trigger] product_views(products@)[i]).wf() by {
                        assert(products@[i].wf());
                    }
                    Payload::Products(products)
                },
                Err(e) => Payload::Exception(ExceptionPayload::parse_failure(&e, text)),
            },
        },
        EmitEvents::TransactionUpdated => match parsed {
            Err(message) => Payload::Exception(
                ExceptionPayload::parse_failure(&DecodeError::Syntax(message), text),
            ),
            Ok(json) => match decode_transactions(&json) {
                Ok(transactions) => {
                    assert forall|i: int| 0 <= i < transactions@.len() implies (
                    #[trigger] transaction_views(transactions@)[i]).wf() by {
                        assert(transactions@[i].wf());
                    }
                    Payload::Transactions(transactions)
                },
                Err(e) => Payload::Exception(ExceptionPayload::parse_failure(&e, text)),
            },
        },
    }
}

/// Decodes the text that a callback of the given kind delivered.
pub fn decode_text(event: EmitEvents, text: &str) -> (r: Payload)
    ensures
        r@ == decoded(event, parsed_json(text@), text@),
        r.wf(),
{
    match event {
        EmitEvents::RestoreCompleted => Payload::RestoreCompleted,
        _ => decode_parsed(event, parse(text), text),
    }
}

/// Decodes an exception from the outcome of parsing the text of an
/// exception callback.
pub fn decode_exception_parsed(parsed: Result<Json, String>, text: &str) -> (r: ExceptionPayload)
    ensures
        r@ == decoded_exception(parse_view(parsed), text@),
{
    match parsed {
        Err(message) => ExceptionPayload::parse_failure(&DecodeError::Syntax(message), text),
        Ok(json) => match ExceptionPayload::decode(&json) {
            Ok(exception) => exception,
            Err(e) => ExceptionPayload::parse_failure(&e, text),
        },
    }
}

/// Decodes the text of an exception callback.
pub fn decode_exception_text(text: &str) -> (r: ExceptionPayload)
    ensures
        r@ == decoded_exception(parsed_json(text@), text@),
{
    decode_exception_parsed(parse(text), text)
}

/// Takes note of a payload at the gateway: the settled transactions that it
/// reports wait to be finished.
pub fn note(gate: &mut IAP, payload: &Payload)
    requires
        old(gate).wf(),
    ensures
        final(gate).wf(),
        final(gate)@ == noted(old(gate)@, payload@),
{
    match payload {
        Payload::Transactions(transactions) => {
            gate.record(transactions);
        },
        _ => {},
    }
}

/// Emits a payload: the gateway takes note of it, and the sink is handed
/// the one emission that carries it.
pub fn emit<S: Fn(Emission)>(emitter: &mut Emitter<S>, gate: &mut IAP, payload: &Payload)
    requires
        old(emitter).is_set(),
        old(emitter).accepts_all(),
        old(gate).wf(),
        payload.wf(),
    ensures
        final(gate).wf(),
        final(gate)@ == noted(old(gate)@, payload@),
        final(emitter).sent_one(*old(emitter), emission_of(payload@)),
{
    note(gate, payload);
    deliver(emitter, payload.emission());
}

/// Handles a callback that delivers a list: decodes the bytes and emits the
/// one event that reports them, the list or the exception. The end of a
/// restore is emitted without a look at the bytes.
pub fn emit_event<S: Fn(Emission)>(
    emitter: &mut Emitter<S>,
    gate: &mut IAP,
    event: EmitEvents,
    bytes: &[u8],
)
    requires
        old(emitter).is_set(),
        old(emitter).accepts_all(),
        old(gate).wf(),
        !(event is RestoreCompleted) ==> valid_utf8(bytes@),
    ensures
        final(gate).wf(),
        final(gate)@ == noted(
            old(gate)@,
            decoded(event, parsed_json(decode_utf8(bytes@)), decode_utf8(bytes@)),
        ),
        final(emitter).sent_one(
            *old(emitter),
            emission_of(decoded(event, parsed_json(decode_utf8(bytes@)), decode_utf8(bytes@))),
        ),
{
    let payload = match event {
        EmitEvents::RestoreCompleted => Payload::RestoreCompleted,
        _ => decode_text(event, text_of_bytes(bytes)),
    };
    emit(emitter, gate, &payload);
}

/// Emits the event of the given kind with nothing in it: the sink is handed
/// that one emission.
pub fn emit_void<S: Fn(Emission)>(emitter: &mut Emitter<S>, event: EmitEvents)
    requires
        old(emitter).is_set(),
        old(emitter).accepts_all(),
    ensures
        final(emitter).sent_one(
            *old(emitter),
            EmissionView { name: event_name(event), payload: JsonView::Null },
        ),
{
    deliver(emitter, Emission { name: String::from_str(event.get_name()), payload: Json::Null });
}

/// Handles the exception callback: decodes the bytes and emits the one
/// exception event that reports them.
pub fn emit_exception<S: Fn(Emission)>(emitter: &mut Emitter<S>, bytes: &[u8])
    requires
        old(emitter).is_set(),
        old(emitter).accepts_all(),
        valid_utf8(bytes@),
    ensures
        final(emitter).sent_one(
            *old(emitter),
            emission_of(
                PayloadView::Exception(
                    decoded_exception(parsed_json(decode_utf8(bytes@)), decode_utf8(bytes@)),
                ),
            ),
        ),
{
    let text = text_of_bytes(bytes);
    let payload = Payload::Exception(decode_exception_text(text));
    deliver(emitter, payload.emission());
}

/// Handles a callback that hands over products as values: emits the one
/// event that carries them.
pub fn update_products<S: Fn(Emission)>(emitter: &mut Emitter<S>, products: Vec<Product>)
    requires
        old(emitter).is_set(),
        old(emitter).accepts_all(),
        forall|i: int| 0 <= i < products@.len() ==> (#[trigger] products@[i]).wf(),
    ensures
        final(emitter).sent_one(
            *old(emitter),
            emission_of(PayloadView::Products(product_views(products@))),
        ),
{
    assert forall|i: int| 0 <= i < products@.len() implies (#[trigger] product_views(
        products@,
    )[i]).wf() by {
        assert(products@[i].wf());
    }
    let payload = Payload::Products(products);
    deliver(emitter, payload.emission());
}

/// Handles a callback that hands over an exception as values: emits the
/// one event that carries it.
pub fn exception_callback<S: Fn(Emission)>(
    emitter: &mut Emitter<S>,
    exception_type: String,
    code: i32,
    message: String,
)
    requires
        old(emitter).is_set(),
        old(emitter).accepts_all(),
    ensures
        final(emitter).sent_one(
            *old(emitter),
            emission_of(PayloadView::Exception(called_back(exception_type@, code, message@))),
        ),
{
    let exception = match ExceptionType::from_name(exception_type.as_str()) {
        Some(kind) => ExceptionPayload { kind, payload: ExceptionError { code, message } },
        None => ExceptionPayload::parse_failure(
            &DecodeError::InvalidField(String::from_str("type")),
            exception_type.as_str(),
        ),
    };
    let payload = Payload::Exception(exception);
    deliver(emitter, payload.emission());
}

} // verus!
