//! Laws of the library: what holds of every value, proved once.

use vstd::prelude::*;
use crate::json::{
    distinct_keys, lemma_object_lookup, lemma_object_numbers, lemma_object_without_null,
    numbers_ok, object_of, present, JsonView,
};
use crate::product::{
    all_wf, discount_fields, discount_json, discount_jsons, discount_of, discounts_from,
    lemma_discount_type_names, lemma_payment_mode_names, lemma_period_unit_names, product_fields,
    product_from, product_json, product_jsons, product_of, products_of, DiscountView,
    ProductView,
};
use crate::commands::{asking, due};
use crate::exception::{
    exception_error_fields, exception_error_of, exception_fields, exception_json, exception_of,
    lemma_exception_type_names, ExceptionPayloadView, ExceptionType, LOCAL_CODE,
};
use crate::global_data::{Emission, EmissionView, Emitter};
use crate::iap::{
    finish_spec, init_spec, purchase_spec, query_spec, restore_spec, CommandError, GateView,
};
use crate::schema::{lemma_collect_each, lemma_collect_values, DecodeErrorView};
use crate::text::{
    lemma_integer_read_text, lemma_integer_text_is_number, lemma_integer_text_read,
};
use crate::transaction::{
    status_code, transaction_fields, transaction_from, transaction_json, transaction_jsons,
    transaction_of, transactions_of, TransactionView,
};
use crate::util::{
    decoded, decoded_exception, exception_event_name, noted, payload_json, payload_name,
    payload_wf, EmitEvents, PayloadView,
};

verus! {

/// The keys of a discount are seven different texts.
proof fn lemma_discount_keys(discount: DiscountView)
    ensures
        distinct_keys(discount_fields(discount)),
        discount_fields(discount).len() == 7,
        forall|i: int|
            0 <= i < 7 ==> (#[trigger] discount_fields(discount)[i]).1 != Some(JsonView::Null),
{
    reveal_strlit("id");
    reveal_strlit("type");
    reveal_strlit("price");
    reveal_strlit("priceMicros");
    reveal_strlit("period");
    reveal_strlit("periodUnit");
    reveal_strlit("paymentMode");
    let fields = discount_fields(discount);
    assert(fields[0].0 == "id"@ && "id"@.len() == 2);
    assert(fields[1].0 == "type"@ && "type"@.len() == 4);
    assert(fields[2].0 == "price"@ && "price"@.len() == 5);
    assert(fields[3].0 == "priceMicros"@ && "priceMicros"@.len() == 11 && "priceMicros"@[1] == 'r');
    assert(fields[4].0 == "period"@ && "period"@.len() == 6);
    assert(fields[5].0 == "periodUnit"@ && "periodUnit"@.len() == 10);
    assert(fields[6].0 == "paymentMode"@ && "paymentMode"@.len() == 11 && "paymentMode"@[1] == 'a');
}

/// Writing a well-formed discount and reading it back gives the discount.
pub proof fn law_discount_round_trip(discount: DiscountView)
    requires
        discount.wf(),
    ensures
        discount_of(discount_json(discount)) == Ok::<DiscountView, DecodeErrorView>(discount),
{
    let fields = discount_fields(discount);
    let members = object_of(fields);
    lemma_discount_keys(discount);
    assert forall|i: int| 0 <= i < 7 implies present(members, (#[trigger] fields[i]).0)
        == fields[i].1 by {
        lemma_object_lookup(fields, i);
        lemma_object_without_null(fields, fields[i].0);
    }
    assert(fields[0].0 == "id"@);
    assert(fields[1].0 == "type"@);
    assert(fields[2].0 == "price"@);
    assert(fields[3].0 == "priceMicros"@);
    assert(fields[4].0 == "period"@);
    assert(fields[5].0 == "periodUnit"@);
    assert(fields[6].0 == "paymentMode"@);
    lemma_discount_type_names(discount.kind);
    lemma_period_unit_names(discount.period_unit);
    lemma_payment_mode_names(discount.payment_mode);
    lemma_integer_text_read(discount.period as int);
}

/// Writing a list of well-formed discounts and reading it back gives the
/// list.
pub proof fn law_discounts_round_trip(discounts: Seq<DiscountView>)
    requires
        all_wf(discounts),
    ensures
        discounts_from(discount_jsons(discounts)) == Ok::<Seq<DiscountView>, DecodeErrorView>(
            discounts,
        ),
{
    let items = discount_jsons(discounts);
    let results = Seq::new(items.len(), |i: int| discount_of(items[i]));
    assert forall|i: int| 0 <= i < results.len() implies #[trigger] results[i] == Ok::<
        DiscountView,
        DecodeErrorView,
    >(discounts[i]) by {
        law_discount_round_trip(discounts[i]);
    }
    lemma_collect_values(results, discounts);
}

/// The keys of a product are seventeen different texts.
proof fn lemma_product_keys(product: ProductView)
    ensures
        distinct_keys(product_fields(product)),
        product_fields(product).len() == 17,
        forall|i: int|
            0 <= i < 17 ==> (#[trigger] product_fields(product)[i]).1 != Some(JsonView::Null),
        product_fields(product)[0].0 == "id"@,
        product_fields(product)[1].0 == "title"@,
        product_fields(product)[2].0 == "description"@,
        product_fields(product)[3].0 == "price"@,
        product_fields(product)[4].0 == "priceMicros"@,
        product_fields(product)[5].0 == "currency"@,
        product_fields(product)[6].0 == "countryCode"@,
        product_fields(product)[7].0 == "currencySymbol"@,
        product_fields(product)[8].0 == "introPrice"@,
        product_fields(product)[9].0 == "introPriceMicros"@,
        product_fields(product)[10].0 == "introPricePeriod"@,
        product_fields(product)[11].0 == "introPricePeriodUnit"@,
        product_fields(product)[12].0 == "introPricePaymentMode"@,
        product_fields(product)[13].0 == "discounts"@,
        product_fields(product)[14].0 == "group"@,
        product_fields(product)[15].0 == "billingPeriod"@,
        product_fields(product)[16].0 == "billingPeriodUnit"@,
{
    reveal_strlit("id");
    reveal_strlit("title");
    reveal_strlit("description");
    reveal_strlit("price");
    reveal_strlit("priceMicros");
    reveal_strlit("currency");
    reveal_strlit("countryCode");
    reveal_strlit("currencySymbol");
    reveal_strlit("introPrice");
    reveal_strlit("introPriceMicros");
    reveal_strlit("introPricePeriod");
    reveal_strlit("introPricePeriodUnit");
    reveal_strlit("introPricePaymentMode");
    reveal_strlit("discounts");
    reveal_strlit("group");
    reveal_strlit("billingPeriod");
    reveal_strlit("billingPeriodUnit");
    let fields = product_fields(product);
    assert(fields[0].0 == "id"@ && "id"@.len() == 2);
    assert(fields[1].0 == "title"@ && "title"@.len() == 5 && "title"@[0] == 't');
    assert(fields[2].0 == "description"@ && "description"@.len() == 11 && "description"@[0] == 'd');
    assert(fields[3].0 == "price"@ && "price"@.len() == 5 && "price"@[0] == 'p');
    assert(fields[4].0 == "priceMicros"@ && "priceMicros"@.len() == 11 && "priceMicros"@[0] == 'p');
    assert(fields[5].0 == "currency"@ && "currency"@.len() == 8);
    assert(fields[6].0 == "countryCode"@ && "countryCode"@.len() == 11 && "countryCode"@[0] == 'c');
    assert(fields[7].0 == "currencySymbol"@ && "currencySymbol"@.len() == 14);
    assert(fields[8].0 == "introPrice"@ && "introPrice"@.len() == 10);
    assert(fields[9].0 == "introPriceMicros"@ && "introPriceMicros"@.len() == 16
        && "introPriceMicros"@[10] == 'M');
    assert(fields[10].0 == "introPricePeriod"@ && "introPricePeriod"@.len() == 16
        && "introPricePeriod"@[10] == 'P');
    assert(fields[11].0 == "introPricePeriodUnit"@ && "introPricePeriodUnit"@.len() == 20);
    assert(fields[12].0 == "introPricePaymentMode"@ && "introPricePaymentMode"@.len() == 21);
    assert(fields[13].0 == "discounts"@ && "discounts"@.len() == 9);
    assert(fields[14].0 == "group"@ && "group"@.len() == 5 && "group"@[0] == 'g');
    assert(fields[15].0 == "billingPeriod"@ && "billingPeriod"@.len() == 13);
    assert(fields[16].0 == "billingPeriodUnit"@ && "billingPeriodUnit"@.len() == 17);
}

/// In the document that writes a product, each key holds its field.
proof fn lemma_product_members(product: ProductView)
    ensures
        present(object_of(product_fields(product)), "id"@) == product_fields(product)[0].1,
        present(object_of(product_fields(product)), "title"@) == product_fields(product)[1].1,
        present(object_of(product_fields(product)), "description"@) == product_fields(product)[2].1,
        present(object_of(product_fields(product)), "price"@) == product_fields(product)[3].1,
        present(object_of(product_fields(product)), "priceMicros"@) == product_fields(product)[4].1,
        present(object_of(product_fields(product)), "currency"@) == product_fields(product)[5].1,
        present(object_of(product_fields(product)), "countryCode"@) == product_fields(product)[6].1,
        present(object_of(product_fields(product)), "currencySymbol"@) == product_fields(product)[7].1,
        present(object_of(product_fields(product)), "introPrice"@) == product_fields(product)[8].1,
        present(object_of(product_fields(product)), "introPriceMicros"@) == product_fields(product)[9].1,
        present(object_of(product_fields(product)), "introPricePeriod"@) == product_fields(product)[10].1,
        present(object_of(product_fields(product)), "introPricePeriodUnit"@) == product_fields(product)[11].1,
        present(object_of(product_fields(product)), "introPricePaymentMode"@) == product_fields(product)[12].1,
        present(object_of(product_fields(product)), "discounts"@) == product_fields(product)[13].1,
        present(object_of(product_fields(product)), "group"@) == product_fields(product)[14].1,
        present(object_of(product_fields(product)), "billingPeriod"@) == product_fields(product)[15].1,
        present(object_of(product_fields(product)), "billingPeriodUnit"@) == product_fields(product)[16].1,
{
    let fields = product_fields(product);
    let written = object_of(fields);
    lemma_product_keys(product);
    assert forall|i: int| 0 <= i < 17 implies present(written, (#[trigger] fields[i]).0)
        == fields[i].1 by {
        lemma_object_lookup(fields, i);
        lemma_object_without_null(fields, fields[i].0);
    }
    assert(present(written, fields[0].0) == fields[0].1);
    assert(present(written, fields[1].0) == fields[1].1);
    assert(present(written, fields[2].0) == fields[2].1);
    assert(present(written, fields[3].0) == fields[3].1);
    assert(present(written, fields[4].0) == fields[4].1);
    assert(present(written, fields[5].0) == fields[5].1);
    assert(present(written, fields[6].0) == fields[6].1);
    assert(present(written, fields[7].0) == fields[7].1);
    assert(present(written, fields[8].0) == fields[8].1);
    assert(present(written, fields[9].0) == fields[9].1);
    assert(present(written, fields[10].0) == fields[10].1);
    assert(present(written, fields[11].0) == fields[11].1);
    assert(present(written, fields[12].0) == fields[12].1);
    assert(present(written, fields[13].0) == fields[13].1);
    assert(present(written, fields[14].0) == fields[14].1);
    assert(present(written, fields[15].0) == fields[15].1);
    assert(present(written, fields[16].0) == fields[16].1);
}

/// Writing a well-formed product and reading it back gives the product:
/// every field that has a value comes back with it, and every field
/// without one comes back without.
pub proof fn law_product_round_trip(product: ProductView)
    requires
        product.wf(),
    ensures
        product_of(product_json(product)) == Ok::<ProductView, DecodeErrorView>(product),
{
    let fields = product_fields(product);
    let members = object_of(fields);
    lemma_product_keys(product);
    lemma_product_members(product);
    if product.intro_price_period is Some {
        lemma_integer_text_read(product.intro_price_period->0 as int);
    }
    if product.billing_period is Some {
        lemma_integer_text_read(product.billing_period->0 as int);
    }
    if product.intro_price_period_unit is Some {
        lemma_period_unit_names(product.intro_price_period_unit->0);
    }
    if product.billing_period_unit is Some {
        lemma_period_unit_names(product.billing_period_unit->0);
    }
    if product.intro_price_payment_mode is Some {
        lemma_payment_mode_names(product.intro_price_payment_mode->0);
    }
    if product.discounts is Some {
        law_discounts_round_trip(product.discounts->0);
    }
    assert(product_from(members) == Ok::<ProductView, DecodeErrorView>(product));
}

/// A product that is read from a document is well formed.
pub proof fn law_decoded_product_wf(members: Seq<(Seq<char>, JsonView)>)
    requires
        product_from(members) is Ok,
    ensures
        (product_from(members)->Ok_0).wf(),
{
    let product = product_from(members)->Ok_0;
    if product.discounts is Some {
        let listed = present(members, "discounts"@)->0->Array_0;
        let results = Seq::new(listed.len(), |i: int| discount_of(listed[i]));
        lemma_collect_each(results);
        assert forall|i: int| 0 <= i < product.discounts->0.len() implies (
        #[trigger] product.discounts->0[i]).wf() by {
            assert(results[i] == discount_of(listed[i]));
        }
    }
}

/// The keys of a product that hold one value each: all but the discounts.
pub open spec fn is_plain_product_key(key: Seq<char>) -> bool {
    ||| key == "id"@
    ||| key == "title"@
    ||| key == "description"@
    ||| key == "price"@
    ||| key == "priceMicros"@
    ||| key == "currency"@
    ||| key == "countryCode"@
    ||| key == "currencySymbol"@
    ||| key == "introPrice"@
    ||| key == "introPriceMicros"@
    ||| key == "introPricePeriod"@
    ||| key == "introPricePeriodUnit"@
    ||| key == "introPricePaymentMode"@
    ||| key == "group"@
    ||| key == "billingPeriod"@
    ||| key == "billingPeriodUnit"@
}

/// Reading a product and writing it again loses nothing: under each key
/// that holds one value the document written holds what the document read
/// held, and holds nothing where that one held nothing or `null`; it lists
/// discounts exactly where that one did; and it reads as the same product.
pub proof fn law_product_reencode(members: Seq<(Seq<char>, JsonView)>, key: Seq<char>)
    requires
        product_from(members) is Ok,
        is_plain_product_key(key),
    ensures
        present(object_of(product_fields(product_from(members)->Ok_0)), key) == present(
            members,
            key,
        ),
        present(object_of(product_fields(product_from(members)->Ok_0)), "discounts"@) is Some
            <==> present(members, "discounts"@) is Some,
        product_of(product_json(product_from(members)->Ok_0)) == product_from(members),
{
    let product = product_from(members)->Ok_0;
    let fields = product_fields(product);
    let written = object_of(fields);
    law_decoded_product_wf(members);
    lemma_product_keys(product);
    lemma_product_members(product);
    law_product_round_trip(product);
    let period = present(members, "introPricePeriod"@);
    if period is Some && period->0 is Number {
        lemma_integer_read_text(period->0->Number_0);
    }
    let billing = present(members, "billingPeriod"@);
    if billing is Some && billing->0 is Number {
        lemma_integer_read_text(billing->0->Number_0);
    }
}

/// The keys of a transaction are eight different texts.
proof fn lemma_transaction_keys(transaction: TransactionView)
    ensures
        distinct_keys(transaction_fields(transaction)),
        transaction_fields(transaction).len() == 8,
        forall|i: int|
            0 <= i < 8 ==> (#[trigger] transaction_fields(transaction)[i]).1 != Some(
                JsonView::Null,
            ),
        transaction_fields(transaction)[0].0 == "productId"@,
        transaction_fields(transaction)[1].0 == "transactionId"@,
        transaction_fields(transaction)[2].0 == "transactionDate"@,
        transaction_fields(transaction)[3].0 == "status"@,
        transaction_fields(transaction)[4].0 == "error"@,
        transaction_fields(transaction)[5].0 == "applicationUserName"@,
        transaction_fields(transaction)[6].0 == "originalIdentifier"@,
        transaction_fields(transaction)[7].0 == "receiptData"@,
{
    reveal_strlit("productId");
    reveal_strlit("transactionId");
    reveal_strlit("transactionDate");
    reveal_strlit("status");
    reveal_strlit("error");
    reveal_strlit("applicationUserName");
    reveal_strlit("originalIdentifier");
    reveal_strlit("receiptData");
    let fields = transaction_fields(transaction);
    assert(fields[0].0 == "productId"@ && "productId"@.len() == 9);
    assert(fields[1].0 == "transactionId"@ && "transactionId"@.len() == 13);
    assert(fields[2].0 == "transactionDate"@ && "transactionDate"@.len() == 15);
    assert(fields[3].0 == "status"@ && "status"@.len() == 6);
    assert(fields[4].0 == "error"@ && "error"@.len() == 5);
    assert(fields[5].0 == "applicationUserName"@ && "applicationUserName"@.len() == 19);
    assert(fields[6].0 == "originalIdentifier"@ && "originalIdentifier"@.len() == 18);
    assert(fields[7].0 == "receiptData"@ && "receiptData"@.len() == 11);
}

/// Writing a well-formed transaction and reading it back gives the transaction.
pub proof fn law_transaction_round_trip(transaction: TransactionView)
    requires
        transaction.wf(),
    ensures
        transaction_of(transaction_json(transaction)) == Ok::<TransactionView, DecodeErrorView>(
            transaction,
        ),
{
    let fields = transaction_fields(transaction);
    let members = object_of(fields);
    lemma_transaction_keys(transaction);
    assert forall|i: int| 0 <= i < 8 implies present(members, (#[trigger] fields[i]).0)
        == fields[i].1 by {
        lemma_object_lookup(fields, i);
        lemma_object_without_null(fields, fields[i].0);
    }
    assert(present(members, fields[0].0) == fields[0].1);
    assert(present(members, fields[1].0) == fields[1].1);
    assert(present(members, fields[2].0) == fields[2].1);
    assert(present(members, fields[3].0) == fields[3].1);
    assert(present(members, fields[4].0) == fields[4].1);
    assert(present(members, fields[5].0) == fields[5].1);
    assert(present(members, fields[6].0) == fields[6].1);
    assert(present(members, fields[7].0) == fields[7].1);
    lemma_integer_text_read(status_code(transaction.status));
    if transaction.transaction_date is Some {
        lemma_integer_text_read(transaction.transaction_date->0 as int);
    }
    assert(transaction_from(members) == Ok::<TransactionView, DecodeErrorView>(transaction));
}

/// Writing an exception payload and reading it back gives the payload.
pub proof fn law_exception_round_trip(exception: ExceptionPayloadView)
    ensures
        exception_of(exception_json(exception)) == Ok::<ExceptionPayloadView, DecodeErrorView>(
            exception,
        ),
{
    reveal_strlit("type");
    reveal_strlit("payload");
    reveal_strlit("code");
    reveal_strlit("message");
    assert("type"@.len() == 4);
    assert("payload"@.len() == 7);
    assert("code"@.len() == 4 && "code"@[0] == 'c');
    assert("message"@.len() == 7);
    let outer = exception_fields(exception);
    let inner = exception_error_fields(exception.payload);
    assert(outer[0].0 == "type"@ && outer[1].0 == "payload"@);
    assert(inner[0].0 == "code"@ && inner[1].0 == "message"@);
    assert forall|i: int| 0 <= i < 2 implies present(object_of(outer), (#[trigger] outer[i]).0)
        == outer[i].1 by {
        lemma_object_lookup(outer, i);
        lemma_object_without_null(outer, outer[i].0);
    }
    assert forall|i: int| 0 <= i < 2 implies present(object_of(inner), (#[trigger] inner[i]).0)
        == inner[i].1 by {
        lemma_object_lookup(inner, i);
        lemma_object_without_null(inner, inner[i].0);
    }
    assert(present(object_of(outer), outer[0].0) == outer[0].1);
    assert(present(object_of(outer), outer[1].0) == outer[1].1);
    assert(present(object_of(inner), inner[0].0) == inner[0].1);
    assert(present(object_of(inner), inner[1].0) == inner[1].1);
    lemma_exception_type_names(exception.kind);
    lemma_integer_text_read(exception.payload.code as int);
    assert(exception_error_of(object_of(inner)) == Ok::<
        crate::exception::ExceptionErrorView,
        DecodeErrorView,
    >(exception.payload));
}

/// What is emitted for a list of well-formed products reads back as that
/// list, in its order.
pub proof fn law_products_round_trip(products: Seq<ProductView>, text: Seq<char>)
    requires
        forall|i: int| 0 <= i < products.len() ==> (#[trigger] products[i]).wf(),
    ensures
        products_of(JsonView::Array(product_jsons(products))) == Ok::<
            Seq<ProductView>,
            DecodeErrorView,
        >(products),
        decoded(
            EmitEvents::ProductsUpdated,
            Ok(payload_json(PayloadView::Products(products))),
            text,
        ) == PayloadView::Products(products),
{
    let items = product_jsons(products);
    let results = Seq::new(items.len(), |i: int| product_of(items[i]));
    assert forall|i: int| 0 <= i < results.len() implies #[trigger] results[i] == Ok::<
        ProductView,
        DecodeErrorView,
    >(products[i]) by {
        law_product_round_trip(products[i]);
    }
    lemma_collect_values(results, products);
}

/// What is emitted for a list of well-formed transactions reads back as
/// that list, in its order.
pub proof fn law_transactions_round_trip(transactions: Seq<TransactionView>, text: Seq<char>)
    requires
        forall|i: int| 0 <= i < transactions.len() ==> (#[trigger] transactions[i]).wf(),
    ensures
        transactions_of(JsonView::Array(transaction_jsons(transactions))) == Ok::<
            Seq<TransactionView>,
            DecodeErrorView,
        >(transactions),
        decoded(
            EmitEvents::TransactionUpdated,
            Ok(payload_json(PayloadView::Transactions(transactions))),
            text,
        ) == PayloadView::Transactions(transactions),
{
    let items = transaction_jsons(transactions);
    let results = Seq::new(items.len(), |i: int| transaction_of(items[i]));
    assert forall|i: int| 0 <= i < results.len() implies #[trigger] results[i] == Ok::<
        TransactionView,
        DecodeErrorView,
    >(transactions[i]) by {
        law_transaction_round_trip(transactions[i]);
    }
    lemma_collect_values(results, transactions);
}

/// While the gateway is not initialized, every request to it is refused
/// with `NotInitialized`: nothing is asked of the platform, and the gateway
/// stays as it is.
pub proof fn law_uninitialized_refuses(
    gate: GateView,
    identifiers: Seq<Seq<char>>,
    product_identifier: Seq<char>,
    quantity: int,
    name: Option<Seq<char>>,
    transaction_id: Seq<char>,
)
    requires
        !gate.initialized,
    ensures
        asking(query_spec(gate, identifiers)) == Err::<crate::commands::StepView, CommandError>(
            CommandError::NotInitialized,
        ),
        asking(due(restore_spec(gate, name))) == Err::<crate::commands::StepView, CommandError>(
            CommandError::NotInitialized,
        ),
        asking(due(purchase_spec(gate, product_identifier, quantity, name))) == Err::<
            crate::commands::StepView,
            CommandError,
        >(CommandError::NotInitialized),
        asking(due(finish_spec(gate, transaction_id).1)) == Err::<
            crate::commands::StepView,
            CommandError,
        >(CommandError::NotInitialized),
        finish_spec(gate, transaction_id).0 == gate,
{
}

/// Initialization succeeds at most once: after it has, every further
/// attempt is refused with `AlreadyInitialized` and changes nothing, and the
/// gateway stays initialized whatever is asked of it.
pub proof fn law_initialize_once(
    gate: GateView,
    again: bool,
    transactions: Seq<TransactionView>,
    transaction_id: Seq<char>,
)
    requires
        init_spec(gate, true).1 == Ok::<bool, CommandError>(true),
    ensures
        init_spec(gate, true).0.initialized,
        init_spec(init_spec(gate, true).0, again) == (
            init_spec(gate, true).0,
            Err::<bool, CommandError>(CommandError::AlreadyInitialized),
        ),
        finish_spec(init_spec(gate, true).0, transaction_id).0.initialized,
        noted(init_spec(gate, true).0, PayloadView::Transactions(transactions)).initialized,
{
}

/// A registration that failed leaves the gateway as it was, so that it can
/// be tried again.
pub proof fn law_failed_registration(gate: GateView)
    requires
        !gate.initialized,
    ensures
        init_spec(gate, false) == (gate, Ok::<bool, CommandError>(false)),
{
}

/// A query without identifiers succeeds, replies `null` and asks nothing of
/// the platform.
pub proof fn law_empty_query(gate: GateView)
    requires
        gate.initialized,
    ensures
        asking(query_spec(gate, Seq::empty())) == Ok::<crate::commands::StepView, CommandError>(
            crate::commands::StepView { reply: JsonView::Null, call: None },
        ),
{
}

/// A transaction can be finished only while it waits: an identifier that
/// does not wait is refused with `UnknownTransaction`, and one that has been
/// finished does not wait any more.
pub proof fn law_finish_once(gate: GateView, transaction_id: Seq<char>)
    requires
        gate.initialized,
    ensures
        !gate.pending.contains(transaction_id) ==> finish_spec(gate, transaction_id) == (
            gate,
            Err::<crate::iap::NativeCallView, CommandError>(CommandError::UnknownTransaction),
        ),
        finish_spec(finish_spec(gate, transaction_id).0, transaction_id) == (
            finish_spec(gate, transaction_id).0,
            Err::<crate::iap::NativeCallView, CommandError>(CommandError::UnknownTransaction),
        ),
{
}

/// A payload that cannot be decoded becomes one exception event, tagged as
/// a parse failure: whether the text is no JSON or the document does not
/// fit, the decoder gives a payload all the same.
pub proof fn law_malformed_payload(
    event: EmitEvents,
    parsed: Result<JsonView, Seq<char>>,
    text: Seq<char>,
)
    requires
        !(event is RestoreCompleted),
        !(decoded(event, parsed, text) is Products),
        !(decoded(event, parsed, text) is Transactions),
    ensures
        decoded(event, parsed, text) is Exception,
        decoded(event, parsed, text)->Exception_0.kind == ExceptionType::JsonParse,
        decoded(event, parsed, text)->Exception_0.payload.code == LOCAL_CODE,
        payload_name(decoded(event, parsed, text)) == exception_event_name(),
{
}

/// Which payloads cannot be decoded: those whose text is no JSON, and those
/// whose document is not the list that the callback reports.
pub proof fn law_malformed_means(
    event: EmitEvents,
    parsed: Result<JsonView, Seq<char>>,
    text: Seq<char>,
)
    ensures
        event is ProductsUpdated ==> (decoded(event, parsed, text) is Exception <==> (parsed is Err
            || crate::product::products_of(parsed->Ok_0) is Err)),
        event is TransactionUpdated ==> (decoded(event, parsed, text) is Exception <==> (parsed
            is Err || crate::transaction::transactions_of(parsed->Ok_0) is Err)),
        event is RestoreCompleted ==> decoded(event, parsed, text) is RestoreCompleted,
{
}

/// The text of an exception callback that describes no exception becomes a
/// parse failure; one that does becomes the exception it describes.
pub proof fn law_malformed_exception(parsed: Result<JsonView, Seq<char>>, text: Seq<char>)
    ensures
        (parsed is Err || exception_of(parsed->Ok_0) is Err) ==> decoded_exception(parsed, text).kind
            == ExceptionType::JsonParse && decoded_exception(parsed, text).payload.code
            == LOCAL_CODE,
        (parsed is Ok && exception_of(parsed->Ok_0) is Ok) ==> decoded_exception(parsed, text)
            == exception_of(parsed->Ok_0)->Ok_0,
{
}

/// A callback that reports products and one that reports an exception do
/// not touch the gateway, so the order in which the two are handled changes
/// neither what is emitted for each nor the state they leave.
pub proof fn law_callbacks_independent(
    gate: GateView,
    products: Result<JsonView, Seq<char>>,
    products_text: Seq<char>,
    exception: ExceptionPayloadView,
)
    ensures
        noted(
            noted(gate, decoded(EmitEvents::ProductsUpdated, products, products_text)),
            PayloadView::Exception(exception),
        ) == gate,
        noted(
            noted(gate, PayloadView::Exception(exception)),
            decoded(EmitEvents::ProductsUpdated, products, products_text),
        ) == gate,
{
}

/// Emissions reach the sink in the order of the calls that hand them over.
/// Let `states` be an emitter before the first of some calls and after each
/// of them, where each call hands over one emission, as every function that
/// emits ensures. Then the sink is the same at the end, and it has been
/// handed what it had been handed before, unchanged, then exactly one
/// emission a call, in call order, and nothing else.
pub proof fn law_emissions_in_order<S: Fn(Emission)>(
    states: Seq<Emitter<S>>,
    contents: Seq<EmissionView>,
)
    requires
        states.len() == contents.len() + 1,
        forall|i: int|
            0 <= i < contents.len() ==> states[i + 1].sent_one(states[i], #[trigger] contents[i]),
    ensures
        states.last().sink() == states[0].sink(),
        states.last().sent() == states[0].sent() + contents,
    decreases contents.len(),
{
    if contents.len() == 0 {
        assert(states[0].sent() + contents =~= states[0].sent());
    } else {
        let n = contents.len() - 1;
        let earlier = contents.drop_last();
        assert forall|i: int| 0 <= i < earlier.len() implies states.drop_last()[i + 1].sent_one(
            states.drop_last()[i],
            #[trigger] earlier[i],
        ) by {
            assert(states[i + 1].sent_one(states[i], contents[i]));
        }
        law_emissions_in_order(states.drop_last(), earlier);
        assert(states[n + 1].sent_one(states[n], contents[n]));
        assert((states[0].sent() + earlier).push(contents[n]) =~= states[0].sent() + contents);
    }
}

/// The document that writes a well-formed discount holds only number
/// literals where it holds numbers.
pub proof fn law_discount_numbers(discount: DiscountView)
    requires
        discount.wf(),
    ensures
        numbers_ok(discount_json(discount)),
{
    let fields = discount_fields(discount);
    lemma_discount_keys(discount);
    lemma_integer_text_is_number(discount.period as int);
    assert forall|i: int| 0 <= i < fields.len() implies ((#[trigger] fields[i]).1 matches Some(v)
        ==> numbers_ok(v)) by {}
    lemma_object_numbers(fields);
}

/// The document that writes a well-formed product holds only number
/// literals where it holds numbers.
pub proof fn law_product_numbers(product: ProductView)
    requires
        product.wf(),
    ensures
        numbers_ok(product_json(product)),
{
    let fields = product_fields(product);
    lemma_product_keys(product);
    if product.intro_price_period is Some {
        lemma_integer_text_is_number(product.intro_price_period->0 as int);
    }
    if product.billing_period is Some {
        lemma_integer_text_is_number(product.billing_period->0 as int);
    }
    if product.discounts is Some {
        let discounts = product.discounts->0;
        assert forall|j: int| 0 <= j < discounts.len() implies numbers_ok(
            #[trigger] discount_jsons(discounts)[j],
        ) by {
            law_discount_numbers(discounts[j]);
        }
        assert(numbers_ok(JsonView::Array(discount_jsons(discounts))));
    }
    assert forall|i: int| 0 <= i < fields.len() implies ((#[trigger] fields[i]).1 matches Some(v)
        ==> numbers_ok(v)) by {}
    lemma_object_numbers(fields);
}

/// The document that writes a transaction holds only number literals where
/// it holds numbers.
pub proof fn law_transaction_numbers(transaction: TransactionView)
    ensures
        numbers_ok(transaction_json(transaction)),
{
    let fields = transaction_fields(transaction);
    lemma_transaction_keys(transaction);
    lemma_integer_text_is_number(status_code(transaction.status));
    if transaction.transaction_date is Some {
        lemma_integer_text_is_number(transaction.transaction_date->0 as int);
    }
    assert forall|i: int| 0 <= i < fields.len() implies ((#[trigger] fields[i]).1 matches Some(v)
        ==> numbers_ok(v)) by {}
    lemma_object_numbers(fields);
}

/// The document that writes an exception holds only number literals where
/// it holds numbers.
pub proof fn law_exception_numbers(exception: ExceptionPayloadView)
    ensures
        numbers_ok(exception_json(exception)),
{
    let inner = exception_error_fields(exception.payload);
    let outer = exception_fields(exception);
    lemma_integer_text_is_number(exception.payload.code as int);
    assert(inner.len() == 2 && outer.len() == 2);
    assert forall|i: int| 0 <= i < inner.len() implies ((#[trigger] inner[i]).1 matches Some(v)
        ==> numbers_ok(v)) by {}
    lemma_object_numbers(inner);
    assert forall|i: int| 0 <= i < outer.len() implies ((#[trigger] outer[i]).1 matches Some(v)
        ==> numbers_ok(v)) by {}
    lemma_object_numbers(outer);
}

/// What is emitted for a well-formed payload holds only number literals
/// where it holds numbers.
pub proof fn law_payload_numbers(payload: PayloadView)
    requires
        payload_wf(payload),
    ensures
        numbers_ok(payload_json(payload)),
{
    match payload {
        PayloadView::Products(products) => {
            assert forall|i: int| 0 <= i < products.len() implies numbers_ok(
                #[trigger] product_jsons(products)[i],
            ) by {
                law_product_numbers(products[i]);
            }
        },
        PayloadView::Transactions(transactions) => {
            assert forall|i: int| 0 <= i < transactions.len() implies numbers_ok(
                #[trigger] transaction_jsons(transactions)[i],
            ) by {
                law_transaction_numbers(transactions[i]);
            }
        },
        PayloadView::RestoreCompleted => {},
        PayloadView::Exception(exception) => {
            law_exception_numbers(exception);
        },
    }
}

} // verus!
