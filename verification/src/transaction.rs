//! Transactions: the record of a purchase attempt and where it stands.

use vstd::prelude::*;
use vstd::string::*;
use crate::json::{
    find_present, item_views, lemma_array_view, member_views, object_of, present, Json, JsonView,
    Member,
};
use crate::schema::{
    collect, i32_from, i32_json, lemma_collect_error, lemma_collect_step, optional_i32,
    optional_i32_json, optional_i32_of, optional_i32_value, optional_text, optional_text_json,
    optional_text_of, optional_text_value, required_field, required_text, required_text_of,
    text_json, text_view, DecodeError, DecodeErrorView, ObjectBuilder,
};
use crate::text::{integer_text, parse_i32};

verus! {

/// Where a transaction stands. Each status is written as a small number
/// that never changes: see [`status_code`].
#[derive(Debug, Clone, Copy, PartialEq, Eq)]
pub enum TransactionStatus {
    Pending,
    Purchased,
    Failed,
    Restored,
    Deferred,
}

/// A transaction as it is reported to the application.
///
/// An identifier and a date are carried only once the transaction is
/// settled: see [`Transaction::wf`].
#[derive(Debug, Clone, PartialEq, Eq)]
pub struct Transaction {
    pub product_id: String,
    pub transaction_id: Option<String>,
    pub transaction_date: Option<i32>,
    pub status: TransactionStatus,
    pub error: Option<String>,
    pub application_user_name: Option<String>,
    pub original_identifier: Option<String>,
    pub receipt_data: Option<String>,
}

/// A transaction as the payment queue shows it to its observer.
#[derive(Debug, Clone, PartialEq, Eq)]
pub struct ObservedTransaction {
    pub product_id: String,
    /// The state, as the number the platform gives it.
    pub state: i64,
    pub transaction_id: Option<String>,
    pub transaction_date: Option<i32>,
}

/// The model of a [`Transaction`].
pub struct TransactionView {
    pub product_id: Seq<char>,
    pub transaction_id: Option<Seq<char>>,
    pub transaction_date: Option<i32>,
    pub status: TransactionStatus,
    pub error: Option<Seq<char>>,
    pub application_user_name: Option<Seq<char>>,
    pub original_identifier: Option<Seq<char>>,
    pub receipt_data: Option<Seq<char>>,
}

/// The model of an [`ObservedTransaction`].
pub struct ObservedTransactionView {
    pub product_id: Seq<char>,
    pub state: int,
    pub transaction_id: Option<Seq<char>>,
    pub transaction_date: Option<i32>,
}

impl View for Transaction {
    type V = TransactionView;

    open spec fn view(&self) -> TransactionView {
        TransactionView {
            product_id: self.product_id@,
            transaction_id: text_view(self.transaction_id),
            transaction_date: self.transaction_date,
            status: self.status,
            error: text_view(self.error),
            application_user_name: text_view(self.application_user_name),
            original_identifier: text_view(self.original_identifier),
            receipt_data: text_view(self.receipt_data),
        }
    }
}

impl View for ObservedTransaction {
    type V = ObservedTransactionView;

    open spec fn view(&self) -> ObservedTransactionView {
        ObservedTransactionView {
            product_id: self.product_id@,
            state: self.state as int,
            transaction_id: text_view(self.transaction_id),
            transaction_date: self.transaction_date,
        }
    }
}

/// The models of a list of transactions.
pub open spec fn transaction_views(transactions: Seq<Transaction>) -> Seq<TransactionView> {
    Seq::new(transactions.len(), |i: int| transactions[i]@)
}

/// The models of a list of observed transactions.
pub open spec fn observed_views(observed: Seq<ObservedTransaction>) -> Seq<ObservedTransactionView> {
    Seq::new(observed.len(), |i: int| observed[i]@)
}

/// The number that writes a status.
pub open spec fn status_code(status: TransactionStatus) -> int {
    match status {
        TransactionStatus::Pending => 0,
        TransactionStatus::Purchased => 1,
        TransactionStatus::Failed => 2,
        TransactionStatus::Restored => 3,
        TransactionStatus::Deferred => 4,
    }
}

/// The status that a number writes.
pub open spec fn status_of_code(code: int) -> Option<TransactionStatus> {
    if code == 0 {
        Some(TransactionStatus::Pending)
    } else if code == 1 {
        Some(TransactionStatus::Purchased)
    } else if code == 2 {
        Some(TransactionStatus::Failed)
    } else if code == 3 {
        Some(TransactionStatus::Restored)
    } else if code == 4 {
        Some(TransactionStatus::Deferred)
    } else {
        None
    }
}

/// A settled transaction is purchased, failed or restored: it will not
/// change any more, and it waits to be finished.
pub open spec fn is_settled(status: TransactionStatus) -> bool {
    status is Purchased || status is Failed || status is Restored
}

/// The status that a document writes.
pub open spec fn status_from(json: JsonView) -> Option<TransactionStatus> {
    match i32_from(json) {
        Some(code) => status_of_code(code as int),
        None => None,
    }
}

/// A required status field.
pub open spec fn required_status_of(members: Seq<(Seq<char>, JsonView)>, key: Seq<char>) -> Result<
    TransactionStatus,
    DecodeErrorView,
> {
    let slot = present(members, key);
    required_field(slot, if slot is Some { status_from(slot->0) } else { None }, key)
}

impl TransactionView {
    /// An identifier and a date are carried only by a settled transaction.
    pub open spec fn wf(self) -> bool {
        (self.transaction_id is Some || self.transaction_date is Some) ==> is_settled(self.status)
    }
}

/// The transaction that the members of an object hold.
pub open spec fn transaction_from(members: Seq<(Seq<char>, JsonView)>) -> Result<
    TransactionView,
    DecodeErrorView,
> {
    let product_id = required_text_of(members, "productId"@);
    let transaction_id = optional_text_of(members, "transactionId"@);
    let transaction_date = optional_i32_of(members, "transactionDate"@);
    let status = required_status_of(members, "status"@);
    let error = optional_text_of(members, "error"@);
    let application_user_name = optional_text_of(members, "applicationUserName"@);
    let original_identifier = optional_text_of(members, "originalIdentifier"@);
    let receipt_data = optional_text_of(members, "receiptData"@);
    if product_id is Err {
        Err(product_id->Err_0)
    } else if transaction_id is Err {
        Err(transaction_id->Err_0)
    } else if transaction_date is Err {
        Err(transaction_date->Err_0)
    } else if status is Err {
        Err(status->Err_0)
    } else if error is Err {
        Err(error->Err_0)
    } else if application_user_name is Err {
        Err(application_user_name->Err_0)
    } else if original_identifier is Err {
        Err(original_identifier->Err_0)
    } else if receipt_data is Err {
        Err(receipt_data->Err_0)
    } else {
        let transaction = TransactionView {
            product_id: product_id->Ok_0,
            transaction_id: transaction_id->Ok_0,
            transaction_date: transaction_date->Ok_0,
            status: status->Ok_0,
            error: error->Ok_0,
            application_user_name: application_user_name->Ok_0,
            original_identifier: original_identifier->Ok_0,
            receipt_data: receipt_data->Ok_0,
        };
        if transaction.wf() {
            Ok(transaction)
        } else {
            Err(DecodeErrorView::UnsettledDetails)
        }
    }
}

/// The transaction that a document holds.
pub open spec fn transaction_of(json: JsonView) -> Result<TransactionView, DecodeErrorView> {
    match json {
        JsonView::Object(members) => transaction_from(members),
        _ => Err(DecodeErrorView::ExpectedObject),
    }
}

/// The transactions that the items of a list hold, or the first error among them.
pub open spec fn transactions_from(items: Seq<JsonView>) -> Result<
    Seq<TransactionView>,
    DecodeErrorView,
> {
    collect(Seq::new(items.len(), |i: int| transaction_of(items[i])))
}

/// The transactions that a document lists.
pub open spec fn transactions_of(json: JsonView) -> Result<Seq<TransactionView>, DecodeErrorView> {
    match json {
        JsonView::Array(items) => transactions_from(items),
        _ => Err(DecodeErrorView::ExpectedArray),
    }
}

/// The fields of a transaction, in the order they are written.
pub open spec fn transaction_fields(transaction: TransactionView) -> Seq<
    (Seq<char>, Option<JsonView>),
> {
    Seq::empty().push(("productId"@, Some(JsonView::Str(transaction.product_id)))).push(
        ("transactionId"@, optional_text_value(transaction.transaction_id)),
    ).push(("transactionDate"@, optional_i32_value(transaction.transaction_date))).push(
        ("status"@, Some(JsonView::Number(integer_text(status_code(transaction.status))))),
    ).push(("error"@, optional_text_value(transaction.error))).push(
        ("applicationUserName"@, optional_text_value(transaction.application_user_name)),
    ).push(("originalIdentifier"@, optional_text_value(transaction.original_identifier))).push(
        ("receiptData"@, optional_text_value(transaction.receipt_data)),
    )
}

/// The document that writes a transaction: an object of the fields that have a value.
pub open spec fn transaction_json(transaction: TransactionView) -> JsonView {
    JsonView::Object(object_of(transaction_fields(transaction)))
}

/// The documents that write a list of transactions.
pub open spec fn transaction_jsons(transactions: Seq<TransactionView>) -> Seq<JsonView> {
    Seq::new(transactions.len(), |i: int| transaction_json(transactions[i]))
}

/// What is reported of an observed transaction: nothing where its state is
/// not one of the five; else its product and status, with the identifier and
/// the date only where it is settled.
pub open spec fn reported(observed: ObservedTransactionView) -> Option<TransactionView> {
    match status_of_code(observed.state) {
        None => None,
        Some(status) => Some(
            TransactionView {
                product_id: observed.product_id,
                transaction_id: if is_settled(status) {
                    observed.transaction_id
                } else {
                    None
                },
                transaction_date: if is_settled(status) {
                    observed.transaction_date
                } else {
                    None
                },
                status,
                error: None,
                application_user_name: None,
                original_identifier: None,
                receipt_data: None,
            },
        ),
    }
}

/// What is reported of a list of observed transactions, in their order.
pub open spec fn reported_all(observed: Seq<ObservedTransactionView>) -> Seq<TransactionView>
    decreases observed.len(),
{
    if observed.len() == 0 {
        Seq::empty()
    } else {
        let before = reported_all(observed.drop_last());
        match reported(observed.last()) {
            Some(transaction) => before.push(transaction),
            None => before,
        }
    }
}

impl TransactionStatus {
    /// The number that writes this status.
    pub fn code(&self) -> (r: i32)
        ensures
            r == status_code(*self),
    {
        match self {
            TransactionStatus::Pending => 0,
            TransactionStatus::Purchased => 1,
            TransactionStatus::Failed => 2,
            TransactionStatus::Restored => 3,
            TransactionStatus::Deferred => 4,
        }
    }

    /// The status that a number writes.
    pub fn from_code(code: i64) -> (r: Option<TransactionStatus>)
        ensures
            r == status_of_code(code as int),
    {
        if code == 0 {
            Some(TransactionStatus::Pending)
        } else if code == 1 {
            Some(TransactionStatus::Purchased)
        } else if code == 2 {
            Some(TransactionStatus::Failed)
        } else if code == 3 {
            Some(TransactionStatus::Restored)
        } else if code == 4 {
            Some(TransactionStatus::Deferred)
        } else {
            None
        }
    }

    /// Whether a transaction of this status is purchased, failed or restored.
    pub fn settled(&self) -> (r: bool)
        ensures
            r == is_settled(*self),
    {
        match self {
            TransactionStatus::Purchased => true,
            TransactionStatus::Failed => true,
            TransactionStatus::Restored => true,
            _ => false,
        }
    }
}

/// Reads a required status field.
pub fn required_status(members: &Vec<Member>, key: &str) -> (r: Result<
    TransactionStatus,
    DecodeError,
>)
    ensures
        match r {
            Ok(v) => required_status_of(member_views(members@), key@) == Ok::<
                TransactionStatus,
                DecodeErrorView,
            >(v),
            Err(e) => required_status_of(member_views(members@), key@) == Err::<
                TransactionStatus,
                DecodeErrorView,
            >(e@),
        },
{
    match find_present(members, key) {
        None => Err(DecodeError::MissingField(String::from_str(key))),
        Some(Json::Number(literal)) => {
            let status = match parse_i32(literal.as_str()) {
                Some(code) => TransactionStatus::from_code(code as i64),
                None => None,
            };
            match status {
                Some(status) => Ok(status),
                None => Err(DecodeError::InvalidField(String::from_str(key))),
            }
        },
        Some(_) => Err(DecodeError::InvalidField(String::from_str(key))),
    }
}

impl Transaction {
    /// An identifier and a date are carried only by a settled transaction.
    pub open spec fn wf(&self) -> bool {
        self@.wf()
    }

    /// Whether an identifier and a date are carried only if settled.
    pub fn is_wf(&self) -> (r: bool)
        ensures
            r == self.wf(),
    {
        self.status.settled() || (self.transaction_id.is_none() && self.transaction_date.is_none())
    }

    /// Reads a transaction from a document.
    pub fn decode(json: &Json) -> (r: Result<Transaction, DecodeError>)
        ensures
            match r {
                Ok(transaction) => transaction_of(json@) == Ok::<TransactionView, DecodeErrorView>(
                    transaction@,
                ) && transaction.wf(),
                Err(e) => transaction_of(json@) == Err::<TransactionView, DecodeErrorView>(e@),
            },
    {
        let members = match json.members() {
            Some(members) => members,
            None => {
                return Err(DecodeError::ExpectedObject);
            },
        };
        let product_id = required_text(members, "productId")?;
        let transaction_id = optional_text(members, "transactionId")?;
        let transaction_date = optional_i32(members, "transactionDate")?;
        let status = required_status(members, "status")?;
        let error = optional_text(members, "error")?;
        let application_user_name = optional_text(members, "applicationUserName")?;
        let original_identifier = optional_text(members, "originalIdentifier")?;
        let receipt_data = optional_text(members, "receiptData")?;
        let transaction = Transaction {
            product_id,
            transaction_id,
            transaction_date,
            status,
            error,
            application_user_name,
            original_identifier,
            receipt_data,
        };
        if transaction.is_wf() {
            Ok(transaction)
        } else {
            Err(DecodeError::UnsettledDetails)
        }
    }

    /// Writes the transaction as a document; a field without a value is left out.
    pub fn encode(&self) -> (r: Json)
        ensures
            r@ == transaction_json(self@),
    {
        let mut object = ObjectBuilder::new();
        object.put("productId", Some(text_json(&self.product_id)));
        object.put("transactionId", optional_text_json(&self.transaction_id));
        object.put("transactionDate", optional_i32_json(self.transaction_date));
        object.put("status", Some(i32_json(self.status.code())));
        object.put("error", optional_text_json(&self.error));
        object.put("applicationUserName", optional_text_json(&self.application_user_name));
        object.put("originalIdentifier", optional_text_json(&self.original_identifier));
        object.put("receiptData", optional_text_json(&self.receipt_data));
        object.finish()
    }

    /// What is reported of an observed transaction: see [`reported`].
    pub fn observed(observed: &ObservedTransaction) -> (r: Option<Transaction>)
        ensures
            match r {
                Some(transaction) => reported(observed@) == Some(transaction@) && transaction.wf(),
                None => reported(observed@) is None,
            },
    {
        let status = match TransactionStatus::from_code(observed.state) {
            Some(status) => status,
            None => {
                return None;
            },
        };
        let settled = status.settled();
        let transaction_id = if settled {
            observed.transaction_id.clone()
        } else {
            None
        };
        let transaction_date = if settled {
            observed.transaction_date
        } else {
            None
        };
        Some(
            Transaction {
                product_id: observed.product_id.clone(),
                transaction_id,
                transaction_date,
                status,
                error: None,
                application_user_name: None,
                original_identifier: None,
                receipt_data: None,
            },
        )
    }
}

/// Reads the transactions that a document lists.
pub fn decode_transactions(json: &Json) -> (r: Result<Vec<Transaction>, DecodeError>)
    ensures
        match r {
            Ok(transactions) => transactions_of(json@) == Ok::<
                Seq<TransactionView>,
                DecodeErrorView,
            >(transaction_views(transactions@)) && forall|i: int|
                0 <= i < transactions@.len() ==> (#[trigger] transactions@[i]).wf(),
            Err(e) => transactions_of(json@) == Err::<Seq<TransactionView>, DecodeErrorView>(e@),
        },
{
    let items = match json.items() {
        Some(items) => items,
        None => {
            return Err(DecodeError::ExpectedArray);
        },
    };
    let ghost shown = item_views(items@);
    let ghost results = Seq::new(shown.len(), |i: int| transaction_of(shown[i]));
    let mut out: Vec<Transaction> = Vec::new();
    let n: usize = items.len();
    let mut i: usize = 0;
    assert(results.subrange(0, 0) =~= Seq::<Result<TransactionView, DecodeErrorView>>::empty());
    assert(transaction_views(out@) =~= Seq::<TransactionView>::empty());
    while i < n
        invariant
            i <= n,
            n == items@.len(),
            shown == item_views(items@),
            json@ == JsonView::Array(shown),
            results == Seq::new(shown.len(), |k: int| transaction_of(shown[k])),
            collect(results.subrange(0, i as int)) == Ok::<Seq<TransactionView>, DecodeErrorView>(
                transaction_views(out@),
            ),
            forall|k: int| 0 <= k < out@.len() ==> (#[trigger] out@[k]).wf(),
        decreases n - i,
    {
        proof {
            lemma_collect_step(results, i as int);
            assert(results[i as int] == transaction_of(items@[i as int]@));
        }
        let ghost before = transaction_views(out@);
        match Transaction::decode(&items[i]) {
            Ok(transaction) => {
                let ghost added = transaction@;
                out.push(transaction);
                assert(transaction_views(out@) =~= before.push(added));
            },
            Err(e) => {
                proof {
                    lemma_collect_error(results, i + 1);
                }
                return Err(e);
            },
        }
        i += 1;
    }
    assert(results.subrange(0, n as int) =~= results);
    Ok(out)
}

/// Writes a list of transactions as a JSON list.
pub fn encode_transactions(transactions: &Vec<Transaction>) -> (r: Json)
    ensures
        r@ == JsonView::Array(transaction_jsons(transaction_views(transactions@))),
{
    let mut items: Vec<Json> = Vec::new();
    let n: usize = transactions.len();
    let mut i: usize = 0;
    while i < n
        invariant
            i <= n,
            n == transactions@.len(),
            items@.len() == i,
            forall|k: int|
                0 <= k < i ==> (#[trigger] items@[k])@ == transaction_json(transactions@[k]@),
        decreases n - i,
    {
        items.push(transactions[i].encode());
        i += 1;
    }
    proof {
        lemma_array_view(items);
        assert(item_views(items@) =~= transaction_jsons(transaction_views(transactions@)));
    }
    Json::Array(items)
}

/// What is reported of the transactions that the payment queue shows its
/// observer: each one whose state is known, in the order they were shown.
pub fn updated_transactions(observed: &Vec<ObservedTransaction>) -> (r: Vec<Transaction>)
    ensures
        transaction_views(r@) == reported_all(observed_views(observed@)),
        forall|i: int| 0 <= i < r@.len() ==> (#[trigger] r@[i]).wf(),
{
    let ghost shown = observed_views(observed@);
    let mut out: Vec<Transaction> = Vec::new();
    let n: usize = observed.len();
    let mut i: usize = 0;
    assert(shown.subrange(0, 0) =~= Seq::<ObservedTransactionView>::empty());
    assert(transaction_views(out@) =~= Seq::<TransactionView>::empty());
    while i < n
        invariant
            i <= n,
            n == observed@.len(),
            shown == observed_views(observed@),
            transaction_views(out@) == reported_all(shown.subrange(0, i as int)),
            forall|k: int| 0 <= k < out@.len() ==> (#[trigger] out@[k]).wf(),
        decreases n - i,
    {
        let ghost before = transaction_views(out@);
        proof {
            assert(shown.subrange(0, i + 1).drop_last() =~= shown.subrange(0, i as int));
            assert(shown.subrange(0, i + 1).last() == observed@[i as int]@);
        }
        match Transaction::observed(&observed[i]) {
            Some(transaction) => {
                let ghost added = transaction@;
                out.push(transaction);
                assert(transaction_views(out@) =~= before.push(added));
            },
            None => {},
        }
        i += 1;
    }
    assert(shown.subrange(0, n as int) =~= shown);
    out
}

} // verus!
