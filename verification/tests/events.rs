use std::cell::RefCell;

use tauri_plugin_iap::exception::{ExceptionError, ExceptionPayload, ExceptionType};
use tauri_plugin_iap::global_data::{deliver, set_emit_handler, Emission, Emitter};
use tauri_plugin_iap::iap::{CommandError, IAP};
use tauri_plugin_iap::json::{find, parse, Json};
use tauri_plugin_iap::product::Product;
use tauri_plugin_iap::transaction::{Transaction, TransactionStatus};
use tauri_plugin_iap::util::{
    decode_exception_parsed, decode_exception_text, decode_parsed, decode_text, emit, emit_event,
    emit_exception, emit_void, exception_callback, text_of_bytes, update_products, EmitEvents,
    Payload,
};

const PRODUCTS: &str = "[{\"id\":\"coins.100\",\"title\":\"100 coins\",\
\"description\":\"A bag of coins\",\"price\":\"0.99\",\"priceMicros\":990000,\"currency\":\"USD\"}]";

fn product() -> Product {
    Product {
        id: "coins.100".to_string(),
        title: "100 coins".to_string(),
        description: "A bag of coins".to_string(),
        price: "0.99".to_string(),
        price_micros: "990000".to_string(),
        currency: "USD".to_string(),
        country_code: None,
        currency_symbol: None,
        intro_price: None,
        intro_price_micros: None,
        intro_price_period: None,
        intro_price_period_unit: None,
        intro_price_payment_mode: None,
        discounts: None,
        group: None,
        billing_period: None,
        billing_period_unit: None,
    }
}

fn restored(id: &str) -> Transaction {
    Transaction {
        product_id: "pro.monthly".to_string(),
        transaction_id: Some(id.to_string()),
        transaction_date: Some(1700000000),
        status: TransactionStatus::Restored,
        error: None,
        application_user_name: None,
        original_identifier: None,
        receipt_data: None,
    }
}

fn restored_text(id: &str) -> String {
    format!(
        "[{{\"productId\":\"pro.monthly\",\"transactionId\":\"{}\",\
\"transactionDate\":1700000000,\"status\":3}}]",
        id
    )
}

fn parse_failure(payload: &Payload) -> &ExceptionError {
    match payload {
        Payload::Exception(exception) => {
            assert_eq!(exception.kind, ExceptionType::JsonParse);
            assert_eq!(exception.payload.code, -1);
            &exception.payload
        }
        other => panic!("not an exception: {:?}", other),
    }
}

#[test]
fn event_names_are_fixed() {
    assert_eq!(EmitEvents::ProductsUpdated.get_name(), "plugin_iap:products-updated");
    assert_eq!(EmitEvents::TransactionUpdated.get_name(), "plugin_iap:transactions-updated");
    assert_eq!(EmitEvents::RestoreCompleted.get_name(), "plugin_iap:restore-completed");
    assert_eq!(Payload::Products(vec![]).name(), "plugin_iap:products-updated");
    assert_eq!(Payload::Transactions(vec![]).name(), "plugin_iap:transactions-updated");
    assert_eq!(Payload::RestoreCompleted.name(), "plugin_iap:restore-completed");
    assert_eq!(
        Payload::Exception(decode_exception_text("")).name(),
        "plugin_iap:exception"
    );
}

#[test]
fn exception_types_of_the_events() {
    assert_eq!(EmitEvents::ProductsUpdated.get_exception_type(), ExceptionType::QueryProducts);
    assert_eq!(
        EmitEvents::TransactionUpdated.get_exception_type(),
        ExceptionType::TransactionUpdated
    );
    assert_eq!(EmitEvents::RestoreCompleted.get_exception_type(), ExceptionType::RestorePurchases);
}

#[test]
fn text_of_bytes_reads_utf8() {
    assert_eq!(text_of_bytes("prix: 3 €".as_bytes()), "prix: 3 €");
    assert_eq!(text_of_bytes(&[]), "");
    assert_eq!(text_of_bytes(&[0x5b, 0x5d]), "[]");
}

#[test]
fn decode_text_gives_the_products() {
    assert_eq!(
        decode_text(EmitEvents::ProductsUpdated, PRODUCTS),
        Payload::Products(vec![product()])
    );
    assert_eq!(decode_text(EmitEvents::ProductsUpdated, "[]"), Payload::Products(vec![]));
}

#[test]
fn decode_text_gives_the_transactions() {
    assert_eq!(
        decode_text(EmitEvents::TransactionUpdated, &restored_text("t-1")),
        Payload::Transactions(vec![restored("t-1")])
    );
}

#[test]
fn decode_text_of_a_restore_completion_reads_nothing() {
    for text in ["", "[]", "not json at all", PRODUCTS] {
        assert_eq!(decode_text(EmitEvents::RestoreCompleted, text), Payload::RestoreCompleted);
    }
    assert_eq!(
        decode_parsed(EmitEvents::RestoreCompleted, Err("boom".to_string()), "x"),
        Payload::RestoreCompleted
    );
}

#[test]
fn decode_text_of_malformed_text_gives_a_parse_failure() {
    for event in [EmitEvents::ProductsUpdated, EmitEvents::TransactionUpdated] {
        for text in ["", "{", "[{\"id\":", "nonsense", "[1,]"] {
            let payload = decode_text(event, text);
            let reason = serde_json::from_str::<serde_json::Value>(text).unwrap_err().to_string();
            assert_eq!(
                parse_failure(&payload).message,
                format!("Failed to parse json: {}. {}", reason, text)
            );
        }
    }
}

#[test]
fn decode_text_of_a_document_that_does_not_fit_gives_a_parse_failure() {
    let cases = [
        (EmitEvents::ProductsUpdated, "{}", "expected a list"),
        (EmitEvents::ProductsUpdated, "null", "expected a list"),
        (EmitEvents::ProductsUpdated, "[3]", "expected an object"),
        (EmitEvents::ProductsUpdated, "[{\"id\":\"a\"}]", "missing field `title`"),
        (EmitEvents::ProductsUpdated, "[{\"id\":7}]", "invalid value of field `id`"),
        (EmitEvents::TransactionUpdated, "\"x\"", "expected a list"),
        (EmitEvents::TransactionUpdated, "[{}]", "missing field `productId`"),
        (
            EmitEvents::TransactionUpdated,
            "[{\"productId\":\"p\",\"status\":9}]",
            "invalid value of field `status`",
        ),
        (
            EmitEvents::TransactionUpdated,
            "[{\"productId\":\"p\",\"status\":0,\"transactionId\":\"t\"}]",
            "identifier or date on an unsettled transaction",
        ),
    ];
    for (event, text, reason) in cases {
        let payload = decode_text(event, text);
        assert_eq!(
            parse_failure(&payload).message,
            format!("Failed to parse json: {}. {}", reason, text)
        );
    }
    let partial = "[{\"id\":\"a\",\"title\":\"t\",\"description\":\"d\",\"price\":\"1\",\
\"priceMicros\":1,\"currency\":\"USD\",\"introPrice\":\"0\"}]";
    assert_eq!(
        parse_failure(&decode_text(EmitEvents::ProductsUpdated, partial)).message,
        format!("Failed to parse json: introductory price is incomplete. {}", partial)
    );
}

#[test]
fn decode_parsed_follows_the_parse_result_it_is_given() {
    assert_eq!(
        decode_parsed(EmitEvents::ProductsUpdated, Ok(Json::Array(vec![])), "ignored"),
        Payload::Products(vec![])
    );
    let payload = decode_parsed(EmitEvents::ProductsUpdated, Err("bad input".to_string()), "raw");
    assert_eq!(parse_failure(&payload).message, "Failed to parse json: bad input. raw");
    let payload = decode_parsed(EmitEvents::TransactionUpdated, Ok(Json::Null), "null");
    assert_eq!(parse_failure(&payload).message, "Failed to parse json: expected a list. null");
}

#[test]
fn decode_exception_text_gives_the_exception() {
    let text = "{\"type\":\"RestorePurchases\",\"payload\":{\"code\":9,\"message\":\"offline\"}}";
    assert_eq!(
        decode_exception_text(text),
        ExceptionPayload {
            kind: ExceptionType::RestorePurchases,
            payload: ExceptionError { code: 9, message: "offline".to_string() },
        }
    );
}

#[test]
fn decode_exception_text_of_malformed_text_gives_a_parse_failure() {
    let exception = decode_exception_text("{\"type\":\"Purchase\"}");
    assert_eq!(exception.kind, ExceptionType::JsonParse);
    assert_eq!(exception.payload.code, -1);
    assert_eq!(
        exception.payload.message,
        "Failed to parse json: missing field `payload`. {\"type\":\"Purchase\"}"
    );
    let exception = decode_exception_parsed(Err("EOF".to_string()), "{");
    assert_eq!(exception.kind, ExceptionType::JsonParse);
    assert_eq!(exception.payload.message, "Failed to parse json: EOF. {");
}

#[test]
fn payload_encode_writes_each_kind() {
    assert_eq!(Payload::RestoreCompleted.encode(), Json::Null);
    assert_eq!(
        Payload::Products(vec![product()]).encode(),
        Json::Array(vec![product().encode()])
    );
    assert_eq!(
        Payload::Transactions(vec![restored("t")]).encode(),
        Json::Array(vec![restored("t").encode()])
    );
    let exception = decode_exception_text("x");
    let written = Payload::Exception(decode_exception_text("x")).encode();
    assert_eq!(written, exception.encode());
    assert_eq!(
        find(written.members().unwrap(), "type"),
        Some(&Json::Str("JsonParse".to_string()))
    );
}

#[test]
fn emission_carries_name_and_document() {
    let emission = Payload::Products(vec![product()]).emission();
    assert_eq!(emission.name, "plugin_iap:products-updated");
    assert_eq!(emission.payload, Json::Array(vec![product().encode()]));
}

#[test]
fn the_sink_is_set_once() {
    let first = RefCell::new(Vec::new());
    let mut emitter = Emitter::new();
    assert!(!emitter.has_sink());
    let sink = |e: Emission| first.borrow_mut().push(e.name);
    assert_eq!(set_emit_handler(&mut emitter, &sink), Ok(()));
    assert!(emitter.has_sink());
    assert_eq!(set_emit_handler(&mut emitter, &sink), Err(CommandError::SinkAlreadySet));
    assert!(emitter.has_sink());
    emit_void(&mut emitter, EmitEvents::RestoreCompleted);
    assert_eq!(*first.borrow(), vec!["plugin_iap:restore-completed".to_string()]);
}

#[test]
fn deliver_hands_the_emission_over_once() {
    let log = RefCell::new(Vec::new());
    let mut emitter = Emitter::new();
    set_emit_handler(&mut emitter, |e: Emission| log.borrow_mut().push(e)).unwrap();
    deliver(&mut emitter, Emission { name: "n".to_string(), payload: Json::Bool(true) });
    tauri_plugin_iap::global_data::emit_event(&mut emitter, "m", Json::Null);
    assert_eq!(
        *log.borrow(),
        vec![
            Emission { name: "n".to_string(), payload: Json::Bool(true) },
            Emission { name: "m".to_string(), payload: Json::Null },
        ]
    );
}

#[test]
fn emit_void_emits_the_name_with_nothing() {
    let log = RefCell::new(Vec::new());
    let mut emitter = Emitter::new();
    set_emit_handler(&mut emitter, |e: Emission| log.borrow_mut().push(e)).unwrap();
    emit_void(&mut emitter, EmitEvents::RestoreCompleted);
    emit_void(&mut emitter, EmitEvents::ProductsUpdated);
    assert_eq!(
        *log.borrow(),
        vec![
            Emission { name: "plugin_iap:restore-completed".to_string(), payload: Json::Null },
            Emission { name: "plugin_iap:products-updated".to_string(), payload: Json::Null },
        ]
    );
}

#[test]
fn emit_event_emits_the_products() {
    let log = RefCell::new(Vec::new());
    let mut emitter = Emitter::new();
    set_emit_handler(&mut emitter, |e: Emission| log.borrow_mut().push(e)).unwrap();
    let mut gate = IAP::new();
    emit_event(&mut emitter, &mut gate, EmitEvents::ProductsUpdated, PRODUCTS.as_bytes());
    assert_eq!(
        *log.borrow(),
        vec![Emission {
            name: "plugin_iap:products-updated".to_string(),
            payload: Json::Array(vec![product().encode()]),
        }]
    );
}

#[test]
fn emit_event_of_malformed_bytes_emits_one_exception() {
    let log = RefCell::new(Vec::new());
    let mut emitter = Emitter::new();
    set_emit_handler(&mut emitter, |e: Emission| log.borrow_mut().push(e)).unwrap();
    let mut gate = IAP::new();
    emit_event(&mut emitter, &mut gate, EmitEvents::ProductsUpdated, b"[{\"id\":1}]");
    let log = log.borrow();
    assert_eq!(log.len(), 1);
    assert_eq!(log[0].name, "plugin_iap:exception");
    let read = ExceptionPayload::decode(&log[0].payload).unwrap();
    assert_eq!(read.kind, ExceptionType::JsonParse);
    assert_eq!(read.payload.code, -1);
    assert_eq!(
        read.payload.message,
        "Failed to parse json: invalid value of field `id`. [{\"id\":1}]"
    );
}

#[test]
fn restore_of_three_transactions_emits_them_in_order_and_then_the_completion() {
    let log = RefCell::new(Vec::new());
    let mut emitter = Emitter::new();
    set_emit_handler(&mut emitter, |e: Emission| log.borrow_mut().push(e)).unwrap();
    let mut gate = IAP::new();
    assert_eq!(gate.init(true), Ok(true));
    assert!(gate.restore(None).is_ok());
    for id in ["t-1", "t-2", "t-3"] {
        emit_event(&mut emitter, &mut gate, EmitEvents::TransactionUpdated, restored_text(id).as_bytes());
    }
    emit_event(&mut emitter, &mut gate, EmitEvents::RestoreCompleted, &[0xff, 0xfe]);
    let expected: Vec<Emission> = ["t-1", "t-2", "t-3"]
        .iter()
        .map(|id| Emission {
            name: "plugin_iap:transactions-updated".to_string(),
            payload: Json::Array(vec![restored(id).encode()]),
        })
        .chain(std::iter::once(Emission {
            name: "plugin_iap:restore-completed".to_string(),
            payload: Json::Null,
        }))
        .collect();
    assert_eq!(*log.borrow(), expected);
    for id in ["t-1", "t-2", "t-3"] {
        assert!(gate.is_pending(id));
    }
    assert!(gate.finish("t-2".to_string()).is_ok());
    assert!(!gate.is_pending("t-2"));
}

#[test]
fn emit_notes_the_transactions_that_pass() {
    let log = RefCell::new(Vec::new());
    let mut emitter = Emitter::new();
    set_emit_handler(&mut emitter, |e: Emission| log.borrow_mut().push(e.name)).unwrap();
    let mut gate = IAP::new();
    emit(&mut emitter, &mut gate, &Payload::Products(vec![product()]));
    emit(&mut emitter, &mut gate, &Payload::RestoreCompleted);
    assert!(!gate.is_pending("t-1"));
    emit(&mut emitter, &mut gate, &Payload::Transactions(vec![restored("t-1")]));
    assert!(gate.is_pending("t-1"));
    assert_eq!(log.borrow().len(), 3);
}

#[test]
fn emit_exception_emits_the_exception_it_is_given() {
    let log = RefCell::new(Vec::new());
    let mut emitter = Emitter::new();
    set_emit_handler(&mut emitter, |e: Emission| log.borrow_mut().push(e)).unwrap();
    let text = "{\"type\":\"QueryProducts\",\"payload\":{\"code\":5,\"message\":\"no store\"}}";
    emit_exception(&mut emitter, text.as_bytes());
    emit_exception(&mut emitter, b"oops");
    let log = log.borrow();
    assert_eq!(log.len(), 2);
    assert_eq!(log[0].name, "plugin_iap:exception");
    assert_eq!(
        ExceptionPayload::decode(&log[0].payload),
        Ok(ExceptionPayload {
            kind: ExceptionType::QueryProducts,
            payload: ExceptionError { code: 5, message: "no store".to_string() },
        })
    );
    assert_eq!(log[1].name, "plugin_iap:exception");
    assert_eq!(ExceptionPayload::decode(&log[1].payload).unwrap().kind, ExceptionType::JsonParse);
}

#[test]
fn update_products_emits_the_products() {
    let log = RefCell::new(Vec::new());
    let mut emitter = Emitter::new();
    set_emit_handler(&mut emitter, |e: Emission| log.borrow_mut().push(e)).unwrap();
    update_products(&mut emitter, vec![product(), product()]);
    assert_eq!(
        *log.borrow(),
        vec![Emission {
            name: "plugin_iap:products-updated".to_string(),
            payload: Json::Array(vec![product().encode(), product().encode()]),
        }]
    );
}

#[test]
fn exception_callback_emits_the_named_exception() {
    let log = RefCell::new(Vec::new());
    let mut emitter = Emitter::new();
    set_emit_handler(&mut emitter, |e: Emission| log.borrow_mut().push(e)).unwrap();
    exception_callback(&mut emitter, "Purchase".to_string(), 3, "declined".to_string());
    exception_callback(&mut emitter, "Mystery".to_string(), 3, "declined".to_string());
    let log = log.borrow();
    assert_eq!(
        ExceptionPayload::decode(&log[0].payload),
        Ok(ExceptionPayload {
            kind: ExceptionType::Purchase,
            payload: ExceptionError { code: 3, message: "declined".to_string() },
        })
    );
    let unknown = ExceptionPayload::decode(&log[1].payload).unwrap();
    assert_eq!(unknown.kind, ExceptionType::JsonParse);
    assert_eq!(
        unknown.payload.message,
        "Failed to parse json: invalid value of field `type`. Mystery"
    );
}

#[test]
fn products_and_exception_callbacks_in_either_order() {
    let exception = "{\"type\":\"Purchase\",\"payload\":{\"code\":1,\"message\":\"m\"}}";
    let mut seen = Vec::new();
    for products_first in [true, false] {
        let log = RefCell::new(Vec::new());
        let mut emitter = Emitter::new();
        set_emit_handler(&mut emitter, |e: Emission| log.borrow_mut().push(e)).unwrap();
        let mut gate = IAP::new();
        if products_first {
            emit_event(&mut emitter, &mut gate, EmitEvents::ProductsUpdated, PRODUCTS.as_bytes());
            emit_exception(&mut emitter, exception.as_bytes());
        } else {
            emit_exception(&mut emitter, exception.as_bytes());
            emit_event(&mut emitter, &mut gate, EmitEvents::ProductsUpdated, PRODUCTS.as_bytes());
        }
        let mut log = log.into_inner();
        assert_eq!(log.len(), 2);
        log.sort_by(|a, b| a.name.cmp(&b.name));
        seen.push(log);
    }
    assert_eq!(seen[0], seen[1]);
    assert_eq!(seen[0][0].name, "plugin_iap:exception");
    assert_eq!(seen[0][1].name, "plugin_iap:products-updated");
    assert_eq!(parse(PRODUCTS).map(|_| ()), Ok(()));
}

#[test]
fn every_emit_function_hands_over_exactly_one_event() {
    let log = RefCell::new(Vec::new());
    let mut emitter = Emitter::new();
    set_emit_handler(&mut emitter, |e: Emission| log.borrow_mut().push(e.name)).unwrap();
    let mut gate = IAP::new();
    let mut expected = Vec::new();
    emit_event(&mut emitter, &mut gate, EmitEvents::ProductsUpdated, PRODUCTS.as_bytes());
    expected.push("plugin_iap:products-updated");
    assert_eq!(*log.borrow(), expected);
    emit_event(&mut emitter, &mut gate, EmitEvents::ProductsUpdated, b"{\"id\":\"p1\"}");
    expected.push("plugin_iap:exception");
    assert_eq!(*log.borrow(), expected);
    emit_exception(&mut emitter, b"oops");
    expected.push("plugin_iap:exception");
    assert_eq!(*log.borrow(), expected);
    emit_void(&mut emitter, EmitEvents::RestoreCompleted);
    expected.push("plugin_iap:restore-completed");
    assert_eq!(*log.borrow(), expected);
    update_products(&mut emitter, vec![product()]);
    expected.push("plugin_iap:products-updated");
    assert_eq!(*log.borrow(), expected);
    exception_callback(&mut emitter, "Purchase".to_string(), 2, "cancelled".to_string());
    expected.push("plugin_iap:exception");
    assert_eq!(*log.borrow(), expected);
    emit(&mut emitter, &mut gate, &Payload::Transactions(vec![restored("t")]));
    expected.push("plugin_iap:transactions-updated");
    assert_eq!(*log.borrow(), expected);
}

#[test]
fn note_takes_note_without_emitting() {
    let mut gate = IAP::new();
    tauri_plugin_iap::util::note(&mut gate, &Payload::Products(vec![product()]));
    assert!(!gate.is_pending("t-1"));
    tauri_plugin_iap::util::note(&mut gate, &Payload::Transactions(vec![restored("t-1")]));
    assert!(gate.is_pending("t-1"));
}

#[test]
fn a_handle_emits_to_the_same_sink() {
    let log = RefCell::new(Vec::new());
    let sink = |e: Emission| log.borrow_mut().push(e.name);
    let mut emitter = Emitter::new();
    assert!(!emitter.handle().has_sink());
    set_emit_handler(&mut emitter, &sink).unwrap();
    let mut handle = emitter.handle();
    assert!(handle.has_sink());
    emit_void(&mut handle, EmitEvents::RestoreCompleted);
    emit_void(&mut emitter, EmitEvents::ProductsUpdated);
    assert_eq!(
        *log.borrow(),
        vec![
            "plugin_iap:restore-completed".to_string(),
            "plugin_iap:products-updated".to_string(),
        ]
    );
}
