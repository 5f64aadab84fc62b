use tauri_plugin_iap::exception::{ExceptionError, ExceptionPayload, ExceptionType, LOCAL_CODE};
use tauri_plugin_iap::json::{parse, Json, Member};
use tauri_plugin_iap::schema::DecodeError;

fn member(key: &str, value: Json) -> Member {
    Member { key: key.to_string(), value }
}

fn all_types() -> [ExceptionType; 5] {
    [
        ExceptionType::QueryProducts,
        ExceptionType::RestorePurchases,
        ExceptionType::Purchase,
        ExceptionType::TransactionUpdated,
        ExceptionType::JsonParse,
    ]
}

#[test]
fn exception_type_names_are_fixed() {
    assert_eq!(ExceptionType::QueryProducts.name(), "QueryProducts");
    assert_eq!(ExceptionType::RestorePurchases.name(), "RestorePurchases");
    assert_eq!(ExceptionType::Purchase.name(), "Purchase");
    assert_eq!(ExceptionType::TransactionUpdated.name(), "TransactionUpdated");
    assert_eq!(ExceptionType::JsonParse.name(), "JsonParse");
}

#[test]
fn exception_type_names_read_back() {
    for kind in all_types() {
        assert_eq!(ExceptionType::from_name(kind.name()), Some(kind));
    }
    assert_eq!(ExceptionType::from_name("purchase"), None);
    assert_eq!(ExceptionType::from_name(""), None);
    assert_eq!(ExceptionType::from_name("Purchase "), None);
}

#[test]
fn decode_exception_reads_type_code_and_message() {
    let json = parse("{\"type\":\"Purchase\",\"payload\":{\"code\":2,\"message\":\"cancelled\"}}")
        .unwrap();
    assert_eq!(
        ExceptionPayload::decode(&json),
        Ok(ExceptionPayload {
            kind: ExceptionType::Purchase,
            payload: ExceptionError { code: 2, message: "cancelled".to_string() },
        })
    );
}

#[test]
fn decode_exception_reports_what_is_wrong() {
    let missing = |key: &str| Err(DecodeError::MissingField(key.to_string()));
    let invalid = |key: &str| Err(DecodeError::InvalidField(key.to_string()));
    let decode = |text: &str| ExceptionPayload::decode(&parse(text).unwrap());
    assert_eq!(decode("[]"), Err(DecodeError::ExpectedObject));
    assert_eq!(decode("{}"), missing("type"));
    assert_eq!(decode("{\"type\":null}"), missing("type"));
    assert_eq!(decode("{\"type\":3}"), invalid("type"));
    assert_eq!(decode("{\"type\":\"Nope\"}"), invalid("type"));
    assert_eq!(decode("{\"type\":\"Purchase\"}"), missing("payload"));
    assert_eq!(decode("{\"type\":\"Purchase\",\"payload\":[]}"), invalid("payload"));
    assert_eq!(decode("{\"type\":\"Purchase\",\"payload\":{}}"), missing("code"));
    assert_eq!(decode("{\"type\":\"Purchase\",\"payload\":{\"code\":1.5}}"), invalid("code"));
    assert_eq!(decode("{\"type\":\"Purchase\",\"payload\":{\"code\":\"1\"}}"), invalid("code"));
    assert_eq!(
        decode("{\"type\":\"Purchase\",\"payload\":{\"code\":2147483648,\"message\":\"m\"}}"),
        invalid("code")
    );
    assert_eq!(decode("{\"type\":\"Purchase\",\"payload\":{\"code\":1}}"), missing("message"));
    assert_eq!(
        decode("{\"type\":\"Purchase\",\"payload\":{\"code\":1,\"message\":false}}"),
        invalid("message")
    );
}

#[test]
fn encode_exception_writes_type_and_payload() {
    let exception = ExceptionPayload {
        kind: ExceptionType::QueryProducts,
        payload: ExceptionError { code: -7, message: "no network".to_string() },
    };
    assert_eq!(
        exception.encode(),
        Json::Object(vec![
            member("type", Json::Str("QueryProducts".to_string())),
            member(
                "payload",
                Json::Object(vec![
                    member("code", Json::Number("-7".to_string())),
                    member("message", Json::Str("no network".to_string())),
                ])
            ),
        ])
    );
}

#[test]
fn exception_round_trip() {
    for kind in all_types() {
        for code in [0, 1, -1, i32::MAX, i32::MIN] {
            let exception = ExceptionPayload {
                kind,
                payload: ExceptionError { code, message: "m \"q\" é".to_string() },
            };
            assert_eq!(ExceptionPayload::decode(&exception.encode()), Ok(exception));
        }
    }
}

#[test]
fn parse_failure_tells_the_reason_and_the_text() {
    let failure = ExceptionPayload::parse_failure(&DecodeError::ExpectedArray, "{\"a\":1}");
    assert_eq!(failure.kind, ExceptionType::JsonParse);
    assert_eq!(failure.payload.code, -1);
    assert_eq!(LOCAL_CODE, -1);
    assert_eq!(failure.payload.message, "Failed to parse json: expected a list. {\"a\":1}");
}

#[test]
fn decode_error_messages() {
    assert_eq!(DecodeError::Syntax("boom at line 1".to_string()).message(), "boom at line 1");
    assert_eq!(DecodeError::ExpectedArray.message(), "expected a list");
    assert_eq!(DecodeError::ExpectedObject.message(), "expected an object");
    assert_eq!(DecodeError::MissingField("id".to_string()).message(), "missing field `id`");
    assert_eq!(
        DecodeError::InvalidField("price".to_string()).message(),
        "invalid value of field `price`"
    );
    assert_eq!(DecodeError::PartialIntroPrice.message(), "introductory price is incomplete");
    assert_eq!(
        DecodeError::UnsettledDetails.message(),
        "identifier or date on an unsettled transaction"
    );
}
