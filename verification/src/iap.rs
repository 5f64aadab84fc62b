//! The gateway to the native purchase client: whether it is initialized,
//! the transactions that wait to be finished, and what each operation asks
//! of the platform.

use vstd::prelude::*;
use vstd::string::*;
use crate::text::{join, joined, str_eq, views};
use crate::transaction::{is_settled, Transaction, TransactionView};

verus! {

/// A caller broke the contract of a command.
#[derive(Debug, Clone, Copy, PartialEq, Eq)]
pub enum CommandError {
    /// A command came before the gateway was initialized.
    NotInitialized,
    /// `initialize` came again after it had succeeded.
    AlreadyInitialized,
    /// A second sink was offered to the emitter.
    SinkAlreadySet,
    /// No transaction with that identifier waits to be finished.
    UnknownTransaction,
}

/// The message of a command error.
pub open spec fn command_error_text(error: CommandError) -> Seq<char> {
    match error {
        CommandError::NotInitialized => "Not initialized."@,
        CommandError::AlreadyInitialized => "Already initialized."@,
        CommandError::SinkAlreadySet => "Event sink already set."@,
        CommandError::UnknownTransaction => "Unknown transaction."@,
    }
}

impl CommandError {
    /// The message of this error.
    pub fn message(&self) -> (r: String)
        ensures
            r@ == command_error_text(*self),
    {
        match self {
            CommandError::NotInitialized => String::from_str("Not initialized."),
            CommandError::AlreadyInitialized => String::from_str("Already initialized."),
            CommandError::SinkAlreadySet => String::from_str("Event sink already set."),
            CommandError::UnknownTransaction => String::from_str("Unknown transaction."),
        }
    }
}

/// One request to the platform's purchase client. The gateway decides which
/// request is due; whoever holds the platform makes it.
#[derive(Debug, Clone, PartialEq, Eq)]
pub enum NativeCall {
    /// Register the four callbacks.
    Initialize,
    /// Look up products; the identifiers are joined by commas.
    QueryProducts { identifiers: String },
    /// Deliver the completed transactions again; the name is empty where none was given.
    RestorePurchases { application_user_name: String },
    /// Buy a product; the name is empty where none was given.
    RequestPurchase { product_identifier: String, quantity: i64, application_user_name: String },
    /// Take a transaction off the payment queue.
    FinishTransaction { transaction_id: String },
}

/// The model of a [`NativeCall`].
pub enum NativeCallView {
    Initialize,
    QueryProducts { identifiers: Seq<char> },
    RestorePurchases { application_user_name: Seq<char> },
    RequestPurchase { product_identifier: Seq<char>, quantity: int, application_user_name: Seq<char> },
    FinishTransaction { transaction_id: Seq<char> },
}

impl View for NativeCall {
    type V = NativeCallView;

    open spec fn view(&self) -> NativeCallView {
        match self {
            NativeCall::Initialize => NativeCallView::Initialize,
            NativeCall::QueryProducts { identifiers } => NativeCallView::QueryProducts {
                identifiers: identifiers@,
            },
            NativeCall::RestorePurchases {
                application_user_name,
            } => NativeCallView::RestorePurchases { application_user_name: application_user_name@ },
            NativeCall::RequestPurchase {
                product_identifier,
                quantity,
                application_user_name,
            } => NativeCallView::RequestPurchase {
                product_identifier: product_identifier@,
                quantity: *quantity as int,
                application_user_name: application_user_name@,
            },
            NativeCall::FinishTransaction {
                transaction_id,
            } => NativeCallView::FinishTransaction { transaction_id: transaction_id@ },
        }
    }
}

/// The gateway: whether it is initialized, and the identifiers of the
/// transactions that wait to be finished.
#[derive(Debug)]
pub struct IAP {
    initialized: bool,
    pending: Vec<String>,
}

/// The model of the gateway.
pub struct GateView {
    pub initialized: bool,
    pub pending: Set<Seq<char>>,
}

/// No text occurs twice.
pub open spec fn distinct(texts: Seq<Seq<char>>) -> bool {
    forall|i: int, j: int| 0 <= i < j < texts.len() ==> texts[i] != texts[j]
}

/// The name of the user, or the empty text where none is given.
pub open spec fn name_or_empty(name: Option<Seq<char>>) -> Seq<char> {
    match name {
        Some(text) => text,
        None => Seq::empty(),
    }
}

/// The identifier by which a transaction waits to be finished, if it does:
/// it is settled and carries one.
pub open spec fn waiting_id(transaction: TransactionView) -> Option<Seq<char>> {
    if is_settled(transaction.status) {
        transaction.transaction_id
    } else {
        None
    }
}

/// The identifiers that wait once a list of transactions has been reported.
pub open spec fn recorded(pending: Set<Seq<char>>, transactions: Seq<TransactionView>) -> Set<
    Seq<char>,
>
    decreases transactions.len(),
{
    if transactions.len() == 0 {
        pending
    } else {
        let before = recorded(pending, transactions.drop_last());
        match waiting_id(transactions.last()) {
            Some(id) => before.insert(id),
            None => before,
        }
    }
}

/// What `init` makes of a gateway and the outcome of the native registration.
pub open spec fn init_spec(gate: GateView, registered: bool) -> (GateView, Result<bool, CommandError>) {
    if gate.initialized {
        (gate, Err(CommandError::AlreadyInitialized))
    } else {
        (GateView { initialized: registered, pending: gate.pending }, Ok(registered))
    }
}

/// What the gateway asks of the platform to look up products.
pub open spec fn query_spec(gate: GateView, identifiers: Seq<Seq<char>>) -> Result<
    Option<NativeCallView>,
    CommandError,
> {
    if !gate.initialized {
        Err(CommandError::NotInitialized)
    } else if identifiers.len() == 0 {
        Ok(None)
    } else {
        Ok(Some(NativeCallView::QueryProducts { identifiers: joined(identifiers, ","@) }))
    }
}

/// What the gateway asks of the platform to restore purchases.
pub open spec fn restore_spec(gate: GateView, name: Option<Seq<char>>) -> Result<
    NativeCallView,
    CommandError,
> {
    if !gate.initialized {
        Err(CommandError::NotInitialized)
    } else {
        Ok(NativeCallView::RestorePurchases { application_user_name: name_or_empty(name) })
    }
}

/// What the gateway asks of the platform to buy a product.
pub open spec fn purchase_spec(
    gate: GateView,
    product_identifier: Seq<char>,
    quantity: int,
    name: Option<Seq<char>>,
) -> Result<NativeCallView, CommandError> {
    if !gate.initialized {
        Err(CommandError::NotInitialized)
    } else {
        Ok(
            NativeCallView::RequestPurchase {
                product_identifier,
                quantity,
                application_user_name: name_or_empty(name),
            },
        )
    }
}

/// What `finish` makes of a gateway and a transaction identifier.
pub open spec fn finish_spec(gate: GateView, transaction_id: Seq<char>) -> (
    GateView,
    Result<NativeCallView, CommandError>,
) {
    if !gate.initialized {
        (gate, Err(CommandError::NotInitialized))
    } else if !gate.pending.contains(transaction_id) {
        (gate, Err(CommandError::UnknownTransaction))
    } else {
        (
            GateView { initialized: true, pending: gate.pending.remove(transaction_id) },
            Ok(NativeCallView::FinishTransaction { transaction_id }),
        )
    }
}

proof fn lemma_views_push(texts: Seq<String>, text: String)
    ensures
        views(texts.push(text)) == views(texts).push(text@),
{
    assert(views(texts.push(text)) =~= views(texts).push(text@));
}

proof fn lemma_set_push(texts: Seq<Seq<char>>, text: Seq<char>)
    ensures
        texts.push(text).to_set() == texts.to_set().insert(text),
{
    let after = texts.push(text);
    assert forall|t: Seq<char>| after.to_set().contains(t) <==> texts.to_set().insert(
        text,
    ).contains(t) by {
        if after.to_set().contains(t) {
            let i = choose|i: int| 0 <= i < after.len() && after[i] == t;
            if i < texts.len() {
                assert(texts[i] == t);
            }
        }
        if texts.to_set().contains(t) {
            let i = choose|i: int| 0 <= i < texts.len() && texts[i] == t;
            assert(after[i] == t);
        }
        if t == text {
            assert(after[texts.len() as int] == t);
        }
    }
    assert(after.to_set() =~= texts.to_set().insert(text));
}

proof fn lemma_set_remove(texts: Seq<Seq<char>>, k: int)
    requires
        distinct(texts),
        0 <= k < texts.len(),
    ensures
        texts.remove(k).to_set() == texts.to_set().remove(texts[k]),
        distinct(texts.remove(k)),
{
    let after = texts.remove(k);
    assert forall|t: Seq<char>| after.to_set().contains(t) <==> texts.to_set().remove(
        texts[k],
    ).contains(t) by {
        if after.to_set().contains(t) {
            let i = choose|i: int| 0 <= i < after.len() && after[i] == t;
            if i < k {
                assert(texts[i] == t);
            } else {
                assert(texts[i + 1] == t);
            }
        }
        if texts.to_set().contains(t) && t != texts[k] {
            let i = choose|i: int| 0 <= i < texts.len() && texts[i] == t;
            if i < k {
                assert(after[i] == t);
            } else {
                assert(after[i - 1] == t);
            }
        }
    }
    assert(after.to_set() =~= texts.to_set().remove(texts[k]));
    assert forall|i: int, j: int| 0 <= i < j < after.len() implies after[i] != after[j] by {
        let a = if i < k {
            i
        } else {
            i + 1
        };
        let b = if j < k {
            j
        } else {
            j + 1
        };
        assert(after[i] == texts[a]);
        assert(after[j] == texts[b]);
    }
}

impl View for IAP {
    type V = GateView;

    closed spec fn view(&self) -> GateView {
        GateView { initialized: self.initialized, pending: views(self.pending@).to_set() }
    }
}

impl IAP {
    /// No identifier waits twice.
    pub closed spec fn wf(&self) -> bool {
        distinct(views(self.pending@))
    }

    /// A gateway that is not initialized and has nothing waiting.
    pub fn new() -> (r: IAP)
        ensures
            r.wf(),
            r@ == (GateView { initialized: false, pending: Set::empty() }),
    {
        let r = IAP { initialized: false, pending: Vec::new() };
        assert(views(r.pending@) =~= Seq::<Seq<char>>::empty());
        assert(views(r.pending@).to_set() =~= Set::<Seq<char>>::empty());
        r
    }

    /// Whether the gateway is initialized.
    pub fn is_initialized(&self) -> (r: bool)
        ensures
            r == self@.initialized,
    {
        self.initialized
    }

    /// Whether a transaction with this identifier waits to be finished.
    pub fn is_pending(&self, transaction_id: &str) -> (r: bool)
        ensures
            r == self@.pending.contains(transaction_id@),
    {
        self.position(transaction_id).is_some()
    }

    /// Where an identifier stands among those that wait.
    fn position(&self, transaction_id: &str) -> (r: Option<usize>)
        ensures
            match r {
                Some(i) => i < self.pending@.len() && self.pending@[i as int]@ == transaction_id@
                    && self@.pending.contains(transaction_id@),
                None => !self@.pending.contains(transaction_id@),
            },
    {
        let n: usize = self.pending.len();
        let mut i: usize = 0;
        while i < n
            invariant
                i <= n,
                n == self.pending@.len(),
                forall|k: int| 0 <= k < i ==> self.pending@[k]@ != transaction_id@,
            decreases n - i,
        {
            if str_eq(self.pending[i].as_str(), transaction_id) {
                assert(views(self.pending@)[i as int] == transaction_id@);
                return Some(i);
            }
            i += 1;
        }
        proof {
            let shown = views(self.pending@);
            if shown.to_set().contains(transaction_id@) {
                let k = choose|k: int| 0 <= k < shown.len() && shown[k] == transaction_id@;
                assert(self.pending@[k]@ == transaction_id@);
            }
        }
        None
    }

    /// Whether registering the callbacks is due: it is until it has succeeded.
    pub fn registration(&self) -> (r: Result<NativeCall, CommandError>)
        ensures
            match r {
                Ok(call) => !self@.initialized && call@ == NativeCallView::Initialize,
                Err(e) => self@.initialized && e == CommandError::AlreadyInitialized,
            },
    {
        if self.initialized {
            Err(CommandError::AlreadyInitialized)
        } else {
            Ok(NativeCall::Initialize)
        }
    }

    /// Takes the outcome of the native registration: the gateway is
    /// initialized where it succeeded, and stays so.
    pub fn init(&mut self, registered: bool) -> (r: Result<bool, CommandError>)
        requires
            old(self).wf(),
        ensures
            final(self).wf(),
            (final(self)@, r) == init_spec(old(self)@, registered),
    {
        if self.initialized {
            Err(CommandError::AlreadyInitialized)
        } else {
            self.initialized = registered;
            Ok(registered)
        }
    }

    /// Asks for a product lookup, unless no identifier is given.
    pub fn start_product_request(&self, identifiers: &Vec<String>) -> (r: Result<
        Option<NativeCall>,
        CommandError,
    >)
        ensures
            match r {
                Ok(Some(call)) => query_spec(self@, views(identifiers@)) == Ok::<
                    Option<NativeCallView>,
                    CommandError,
                >(Some(call@)),
                Ok(None) => query_spec(self@, views(identifiers@)) == Ok::<
                    Option<NativeCallView>,
                    CommandError,
                >(None),
                Err(e) => query_spec(self@, views(identifiers@)) == Err::<
                    Option<NativeCallView>,
                    CommandError,
                >(e),
            },
    {
        if !self.initialized {
            Err(CommandError::NotInitialized)
        } else if identifiers.len() == 0 {
            Ok(None)
        } else {
            Ok(Some(NativeCall::QueryProducts { identifiers: join(identifiers, ",") }))
        }
    }

    /// Asks for the completed transactions to be delivered again.
    pub fn restore(&self, application_user_name: Option<String>) -> (r: Result<
        NativeCall,
        CommandError,
    >)
        ensures
            match r {
                Ok(call) => restore_spec(self@, crate::schema::text_view(application_user_name))
                    == Ok::<NativeCallView, CommandError>(call@),
                Err(e) => restore_spec(self@, crate::schema::text_view(application_user_name))
                    == Err::<NativeCallView, CommandError>(e),
            },
    {
        if !self.initialized {
            Err(CommandError::NotInitialized)
        } else {
            let name = match application_user_name {
                Some(name) => name,
                None => String::new(),
            };
            Ok(NativeCall::RestorePurchases { application_user_name: name })
        }
    }

    /// Asks for a purchase.
    pub fn purchase(
        &self,
        product_identifier: String,
        quantity: i64,
        application_user_name: Option<String>,
    ) -> (r: Result<NativeCall, CommandError>)
        ensures
            match r {
                Ok(call) => purchase_spec(
                    self@,
                    product_identifier@,
                    quantity as int,
                    crate::schema::text_view(application_user_name),
                ) == Ok::<NativeCallView, CommandError>(call@),
                Err(e) => purchase_spec(
                    self@,
                    product_identifier@,
                    quantity as int,
                    crate::schema::text_view(application_user_name),
                ) == Err::<NativeCallView, CommandError>(e),
            },
    {
        if !self.initialized {
            Err(CommandError::NotInitialized)
        } else {
            let name = match application_user_name {
                Some(name) => name,
                None => String::new(),
            };
            Ok(
                NativeCall::RequestPurchase {
                    product_identifier,
                    quantity,
                    application_user_name: name,
                },
            )
        }
    }

    /// Finishes a transaction that waits: it waits no longer, and the
    /// platform is asked to take it off the queue.
    pub fn finish(&mut self, transaction_id: String) -> (r: Result<NativeCall, CommandError>)
        requires
            old(self).wf(),
        ensures
            final(self).wf(),
            match r {
                Ok(call) => (final(self)@, Ok::<NativeCallView, CommandError>(call@))
                    == finish_spec(old(self)@, transaction_id@),
                Err(e) => (final(self)@, Err::<NativeCallView, CommandError>(e)) == finish_spec(
                    old(self)@,
                    transaction_id@,
                ),
            },
    {
        if !self.initialized {
            return Err(CommandError::NotInitialized);
        }
        match self.position(transaction_id.as_str()) {
            None => Err(CommandError::UnknownTransaction),
            Some(i) => {
                proof {
                    lemma_set_remove(views(self.pending@), i as int);
                    assert(views(self.pending@.remove(i as int)) =~= views(self.pending@).remove(
                        i as int,
                    ));
                }
                self.pending.remove(i);
                Ok(NativeCall::FinishTransaction { transaction_id })
            },
        }
    }

    /// Takes note of the transactions that were reported: each settled one
    /// that carries an identifier waits to be finished.
    pub fn record(&mut self, transactions: &Vec<Transaction>)
        requires
            old(self).wf(),
        ensures
            final(self).wf(),
            final(self)@.initialized == old(self)@.initialized,
            final(self)@.pending == recorded(
                old(self)@.pending,
                crate::transaction::transaction_views(transactions@),
            ),
    {
        let ghost shown = crate::transaction::transaction_views(transactions@);
        let ghost start = self@.pending;
        let n: usize = transactions.len();
        let mut i: usize = 0;
        assert(shown.subrange(0, 0) =~= Seq::<TransactionView>::empty());
        while i < n
            invariant
                i <= n,
                n == transactions@.len(),
                shown == crate::transaction::transaction_views(transactions@),
                self.wf(),
                self@.initialized == old(self)@.initialized,
                self@.pending == recorded(start, shown.subrange(0, i as int)),
            decreases n - i,
        {
            proof {
                assert(shown.subrange(0, i + 1).drop_last() =~= shown.subrange(0, i as int));
                assert(shown.subrange(0, i + 1).last() == transactions@[i as int]@);
            }
            let transaction = &transactions[i];
            if transaction.status.settled() {
                match &transaction.transaction_id {
                    Some(id) => {
                        if self.position(id.as_str()).is_none() {
                            proof {
                                lemma_views_push(self.pending@, *id);
                                lemma_set_push(views(self.pending@), id@);
                            }
                            self.pending.push(id.clone());
                        } else {
                            assert(self@.pending.insert(id@) =~= self@.pending);
                        }
                    },
                    None => {},
                }
            }
            i += 1;
        }
        assert(shown.subrange(0, n as int) =~= shown);
    }
}

impl Default for IAP {
    fn default() -> (r: IAP)
        ensures
            r.wf(),
            r@ == (GateView { initialized: false, pending: Set::empty() }),
    {
        IAP::new()
    }
}

} // verus!
