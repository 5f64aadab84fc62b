//! The commands that the application may issue, each with its reply and
//! with what it asks of the platform.

use vstd::prelude::*;
use crate::iap::{
    finish_spec, init_spec, purchase_spec, query_spec, restore_spec, CommandError, NativeCall,
    NativeCallView, IAP,
};
use crate::json::{Json, JsonView};
use crate::schema::text_view;
use crate::text::views;

verus! {

/// What a command that was accepted comes to: the reply for the
/// application, and the request to make of the platform, if any.
#[derive(Debug, PartialEq, Eq)]
pub struct Step {
    pub reply: Json,
    pub call: Option<NativeCall>,
}

/// The model of a [`Step`].
pub struct StepView {
    pub reply: JsonView,
    pub call: Option<NativeCallView>,
}

/// The model of an optional native call.
pub open spec fn call_view(call: Option<NativeCall>) -> Option<NativeCallView> {
    match call {
        Some(c) => Some(c@),
        None => None,
    }
}

impl View for Step {
    type V = StepView;

    open spec fn view(&self) -> StepView {
        StepView { reply: self.reply@, call: call_view(self.call) }
    }
}

/// The step of a command that replies `null`: what the gateway asks for.
pub open spec fn asking(call: Result<Option<NativeCallView>, CommandError>) -> Result<
    StepView,
    CommandError,
> {
    match call {
        Ok(c) => Ok(StepView { reply: JsonView::Null, call: c }),
        Err(e) => Err(e),
    }
}

/// The gateway's request, as one that may be none.
pub open spec fn due(call: Result<NativeCallView, CommandError>) -> Result<
    Option<NativeCallView>,
    CommandError,
> {
    match call {
        Ok(c) => Ok(Some(c)),
        Err(e) => Err(e),
    }
}

/// The model of the outcome of a command.
pub open spec fn step_view(r: Result<Step, CommandError>) -> Result<StepView, CommandError> {
    match r {
        Ok(step) => Ok(step@),
        Err(e) => Err(e),
    }
}

/// The model of a reply.
pub open spec fn reply_view(r: Result<Json, CommandError>) -> Result<JsonView, CommandError> {
    match r {
        Ok(json) => Ok(json@),
        Err(e) => Err(e),
    }
}

/// The reply of `country_code`: the code, or `null` where there is none.
pub open spec fn country_reply(country: Option<Seq<char>>) -> JsonView {
    match country {
        Some(code) => JsonView::Str(code),
        None => JsonView::Null,
    }
}

/// The reply of `initialize`.
pub open spec fn initialize_reply(outcome: Result<bool, CommandError>) -> Result<
    JsonView,
    CommandError,
> {
    match outcome {
        Ok(registered) => Ok(JsonView::Bool(registered)),
        Err(e) => Err(e),
    }
}

/// Replies whether payments can be made, as the platform answered.
pub fn can_make_payments(available: bool) -> (r: Result<Json, CommandError>)
    ensures
        reply_view(r) == Ok::<JsonView, CommandError>(JsonView::Bool(available)),
{
    Ok(Json::Bool(available))
}

/// Replies the country code of the storefront, as the platform answered.
pub fn country_code(country: Option<String>) -> (r: Result<Json, CommandError>)
    ensures
        reply_view(r) == Ok::<JsonView, CommandError>(country_reply(text_view(country))),
{
    match country {
        Some(code) => Ok(Json::Str(code)),
        None => Ok(Json::Null),
    }
}

/// Takes the outcome of the native registration and replies it; refused
/// once the gateway is initialized.
pub fn initialize(gate: &mut IAP, registered: bool) -> (r: Result<Json, CommandError>)
    requires
        old(gate).wf(),
    ensures
        final(gate).wf(),
        final(gate)@ == init_spec(old(gate)@, registered).0,
        reply_view(r) == initialize_reply(init_spec(old(gate)@, registered).1),
{
    match gate.init(registered) {
        Ok(outcome) => Ok(Json::Bool(outcome)),
        Err(e) => Err(e),
    }
}

/// Asks for a product lookup; with no identifier it asks for nothing.
pub fn query_products(gate: &IAP, identifiers: &Vec<String>) -> (r: Result<Step, CommandError>)
    ensures
        step_view(r) == asking(query_spec(gate@, views(identifiers@))),
{
    match gate.start_product_request(identifiers) {
        Ok(call) => Ok(Step { reply: Json::Null, call }),
        Err(e) => Err(e),
    }
}

/// Asks for the completed transactions to be delivered again.
pub fn restore_purchases(gate: &IAP, application_user_name: Option<String>) -> (r: Result<
    Step,
    CommandError,
>)
    ensures
        step_view(r) == asking(due(restore_spec(gate@, text_view(application_user_name)))),
{
    match gate.restore(application_user_name) {
        Ok(call) => Ok(Step { reply: Json::Null, call: Some(call) }),
        Err(e) => Err(e),
    }
}

/// Asks for a purchase.
pub fn request_purchase(
    gate: &IAP,
    product_identifier: String,
    quantity: i64,
    application_user_name: Option<String>,
) -> (r: Result<Step, CommandError>)
    ensures
        step_view(r) == asking(
            due(
                purchase_spec(
                    gate@,
                    product_identifier@,
                    quantity as int,
                    text_view(application_user_name),
                ),
            ),
        ),
{
    match gate.purchase(product_identifier, quantity, application_user_name) {
        Ok(call) => Ok(Step { reply: Json::Null, call: Some(call) }),
        Err(e) => Err(e),
    }
}

/// Finishes a transaction that waits.
pub fn finish_transaction(gate: &mut IAP, transaction_id: String) -> (r: Result<
    Step,
    CommandError,
>)
    requires
        old(gate).wf(),
    ensures
        final(gate).wf(),
        final(gate)@ == finish_spec(old(gate)@, transaction_id@).0,
        step_view(r) == asking(due(finish_spec(old(gate)@, transaction_id@).1)),
{
    match gate.finish(transaction_id) {
        Ok(call) => Ok(Step { reply: Json::Null, call: Some(call) }),
        Err(e) => Err(e),
    }
}

} // verus!
