use tauri_plugin_iap::json::{find, parse, Json, Member};
use tauri_plugin_iap::product::{
    decode_discounts, decode_products, encode_discounts, encode_products, Discount, DiscountType,
    IPeriodUnit, PaymentMode, Product,
};
use tauri_plugin_iap::schema::DecodeError;

fn member(key: &str, value: Json) -> Member {
    Member { key: key.to_string(), value }
}

fn text(s: &str) -> Json {
    Json::Str(s.to_string())
}

fn number(s: &str) -> Json {
    Json::Number(s.to_string())
}

fn plain_product() -> Product {
    Product {
        id: "coins.100".to_string(),
        title: "100 coins".to_string(),
        description: "A bag of coins".to_string(),
        price: "0.99".to_string(),
        price_micros: "990000".to_string(),
        currency: "USD".to_string(),
        country_code: None,
        currency_symbol: None,
        intro_price: None,
        intro_price_micros: None,
        intro_price_period: None,
        intro_price_period_unit: None,
        intro_price_payment_mode: None,
        discounts: None,
        group: None,
        billing_period: None,
        billing_period_unit: None,
    }
}

fn discount() -> Discount {
    Discount {
        id: "winter".to_string(),
        kind: DiscountType::Subscription,
        price: "1.49".to_string(),
        price_micros: "1490000.0".to_string(),
        period: 3,
        period_unit: IPeriodUnit::Month,
        payment_mode: PaymentMode::PayAsYouGo,
    }
}

fn full_product() -> Product {
    Product {
        id: "pro.monthly".to_string(),
        title: "Pro".to_string(),
        description: "Everything".to_string(),
        price: "4.99".to_string(),
        price_micros: "4990000".to_string(),
        currency: "EUR".to_string(),
        country_code: Some("DE".to_string()),
        currency_symbol: Some("€".to_string()),
        intro_price: Some("0.00".to_string()),
        intro_price_micros: Some("0".to_string()),
        intro_price_period: Some(7),
        intro_price_period_unit: Some(IPeriodUnit::Day),
        intro_price_payment_mode: Some(PaymentMode::FreeTrial),
        discounts: Some(vec![discount()]),
        group: Some("pro".to_string()),
        billing_period: Some(1),
        billing_period_unit: Some(IPeriodUnit::Month),
    }
}

const PLAIN: &str = "{\"id\":\"coins.100\",\"title\":\"100 coins\",\"description\":\"A bag of coins\",\
\"price\":\"0.99\",\"priceMicros\":990000,\"currency\":\"USD\"}";

const FULL: &str = "{\"id\":\"pro.monthly\",\"title\":\"Pro\",\"description\":\"Everything\",\
\"price\":\"4.99\",\"priceMicros\":4990000,\"currency\":\"EUR\",\"countryCode\":\"DE\",\
\"currencySymbol\":\"€\",\"introPrice\":\"0.00\",\"introPriceMicros\":0,\"introPricePeriod\":7,\
\"introPricePeriodUnit\":\"Day\",\"introPricePaymentMode\":\"FreeTrial\",\
\"discounts\":[{\"id\":\"winter\",\"type\":\"Subscription\",\"price\":\"1.49\",\
\"priceMicros\":1490000.0,\"period\":3,\"periodUnit\":\"Month\",\"paymentMode\":\"PayAsYouGo\"}],\
\"group\":\"pro\",\"billingPeriod\":1,\"billingPeriodUnit\":\"Month\"}";

fn decode(text: &str) -> Result<Product, DecodeError> {
    Product::decode(&parse(text).unwrap())
}

fn without(text: &str, key: &str) -> Json {
    match parse(text).unwrap() {
        Json::Object(members) => {
            Json::Object(members.into_iter().filter(|m| m.key != key).collect())
        }
        other => other,
    }
}

fn with(text: &str, key: &str, value: Json) -> Json {
    match without(text, key) {
        Json::Object(mut members) => {
            members.push(member(key, value));
            Json::Object(members)
        }
        other => other,
    }
}

#[test]
fn period_unit_names() {
    let all = [
        (IPeriodUnit::Minute, "Minute"),
        (IPeriodUnit::Hour, "Hour"),
        (IPeriodUnit::Day, "Day"),
        (IPeriodUnit::Week, "Week"),
        (IPeriodUnit::Month, "Month"),
        (IPeriodUnit::Year, "Year"),
    ];
    for (unit, name) in all {
        assert_eq!(unit.name(), name);
        assert_eq!(IPeriodUnit::from_name(name), Some(unit));
    }
    assert_eq!(IPeriodUnit::from_name("month"), None);
    assert_eq!(IPeriodUnit::from_name("Weeks"), None);
    assert_eq!(IPeriodUnit::from_name("3"), None);
}

#[test]
fn payment_mode_names() {
    let all = [
        (PaymentMode::PayAsYouGo, "PayAsYouGo"),
        (PaymentMode::UpFront, "UpFront"),
        (PaymentMode::FreeTrial, "FreeTrial"),
    ];
    for (mode, name) in all {
        assert_eq!(mode.name(), name);
        assert_eq!(PaymentMode::from_name(name), Some(mode));
    }
    assert_eq!(PaymentMode::from_name("Day"), None);
    assert_eq!(PaymentMode::from_name(""), None);
}

#[test]
fn discount_type_names() {
    let all =
        [(DiscountType::Introductory, "Introductory"), (DiscountType::Subscription, "Subscription")];
    for (kind, name) in all {
        assert_eq!(kind.name(), name);
        assert_eq!(DiscountType::from_name(name), Some(kind));
    }
    assert_eq!(DiscountType::from_name("FreeTrial"), None);
}

#[test]
fn decode_product_with_required_fields_only() {
    assert_eq!(decode(PLAIN), Ok(plain_product()));
}

#[test]
fn decode_product_with_every_field() {
    assert_eq!(decode(FULL), Ok(full_product()));
}

#[test]
fn decode_product_takes_null_for_absent() {
    let json = with(PLAIN, "group", Json::Null);
    assert_eq!(Product::decode(&json), Ok(plain_product()));
    let json = with(PLAIN, "discounts", Json::Null);
    assert_eq!(Product::decode(&json), Ok(plain_product()));
}

#[test]
fn decode_product_ignores_unknown_fields() {
    let json = with(PLAIN, "colour", text("red"));
    assert_eq!(Product::decode(&json), Ok(plain_product()));
}

#[test]
fn decode_product_wants_an_object() {
    assert_eq!(decode("[]"), Err(DecodeError::ExpectedObject));
    assert_eq!(decode("\"coins\""), Err(DecodeError::ExpectedObject));
    assert_eq!(decode("null"), Err(DecodeError::ExpectedObject));
}

#[test]
fn decode_product_reports_a_missing_required_field() {
    for key in ["id", "title", "description", "price", "priceMicros", "currency"] {
        assert_eq!(
            Product::decode(&without(FULL, key)),
            Err(DecodeError::MissingField(key.to_string()))
        );
        assert_eq!(
            Product::decode(&with(FULL, key, Json::Null)),
            Err(DecodeError::MissingField(key.to_string()))
        );
    }
}

#[test]
fn decode_product_reports_the_first_fault() {
    assert_eq!(decode("{}"), Err(DecodeError::MissingField("id".to_string())));
    assert_eq!(
        decode("{\"id\":\"a\",\"title\":7}"),
        Err(DecodeError::InvalidField("title".to_string()))
    );
}

#[test]
fn decode_product_reports_a_field_of_the_wrong_kind() {
    let wrong = [
        ("id", number("1")),
        ("title", Json::Bool(true)),
        ("description", Json::Array(vec![])),
        ("price", number("0.99")),
        ("priceMicros", text("990000")),
        ("currency", number("1")),
        ("countryCode", number("49")),
        ("currencySymbol", Json::Bool(false)),
        ("introPrice", number("0")),
        ("introPriceMicros", text("0")),
        ("introPricePeriod", text("7")),
        ("introPricePeriod", number("7.0")),
        ("introPricePeriod", number("2147483648")),
        ("introPricePeriodUnit", text("Fortnight")),
        ("introPricePeriodUnit", number("2")),
        ("introPricePaymentMode", text("Later")),
        ("discounts", text("none")),
        ("discounts", Json::Object(vec![])),
        ("group", number("1")),
        ("billingPeriod", number("1.5")),
        ("billingPeriodUnit", text("month")),
    ];
    for (key, value) in wrong {
        assert_eq!(
            Product::decode(&with(FULL, key, value)),
            Err(DecodeError::InvalidField(key.to_string()))
        );
    }
}

#[test]
fn decode_product_refuses_a_partial_introductory_price() {
    for key in [
        "introPrice",
        "introPriceMicros",
        "introPricePeriod",
        "introPricePeriodUnit",
        "introPricePaymentMode",
    ] {
        assert_eq!(Product::decode(&without(FULL, key)), Err(DecodeError::PartialIntroPrice));
    }
    assert_eq!(
        Product::decode(&with(PLAIN, "introPrice", text("0.00"))),
        Err(DecodeError::PartialIntroPrice)
    );
}

#[test]
fn decode_product_reports_a_fault_in_a_discount() {
    let bad = Json::Array(vec![discount().encode(), Json::Object(vec![member("id", text("x"))])]);
    assert_eq!(
        Product::decode(&with(FULL, "discounts", bad)),
        Err(DecodeError::MissingField("type".to_string()))
    );
    let not_objects = Json::Array(vec![number("1")]);
    assert_eq!(
        Product::decode(&with(FULL, "discounts", not_objects)),
        Err(DecodeError::ExpectedObject)
    );
}

#[test]
fn is_wf_tells_whole_introductory_prices_from_partial_ones() {
    assert!(plain_product().is_wf());
    assert!(full_product().is_wf());
    let mut partial = full_product();
    partial.intro_price_period = None;
    assert!(!partial.is_wf());
    let mut lonely = plain_product();
    lonely.intro_price_payment_mode = Some(PaymentMode::UpFront);
    assert!(!lonely.is_wf());
}

#[test]
fn encode_product_leaves_absent_fields_out() {
    let json = plain_product().encode();
    assert_eq!(
        json,
        Json::Object(vec![
            member("id", text("coins.100")),
            member("title", text("100 coins")),
            member("description", text("A bag of coins")),
            member("price", text("0.99")),
            member("priceMicros", number("990000")),
            member("currency", text("USD")),
        ])
    );
}

#[test]
fn encode_product_writes_every_present_field() {
    let json = full_product().encode();
    let members = json.members().unwrap();
    let keys: Vec<&str> = members.iter().map(|m| m.key.as_str()).collect();
    assert_eq!(
        keys,
        vec![
            "id",
            "title",
            "description",
            "price",
            "priceMicros",
            "currency",
            "countryCode",
            "currencySymbol",
            "introPrice",
            "introPriceMicros",
            "introPricePeriod",
            "introPricePeriodUnit",
            "introPricePaymentMode",
            "discounts",
            "group",
            "billingPeriod",
            "billingPeriodUnit",
        ]
    );
    assert_eq!(find(members, "introPricePeriod"), Some(&number("7")));
    assert_eq!(find(members, "introPricePeriodUnit"), Some(&text("Day")));
    assert_eq!(find(members, "introPricePaymentMode"), Some(&text("FreeTrial")));
    assert_eq!(find(members, "discounts"), Some(&Json::Array(vec![discount().encode()])));
}

#[test]
fn product_round_trip_from_values() {
    for product in [plain_product(), full_product()] {
        assert_eq!(Product::decode(&product.encode()), Ok(product));
    }
}

#[test]
fn product_round_trip_from_text_keeps_present_fields_and_adds_none() {
    for source in [PLAIN, FULL] {
        let read = parse(source).unwrap();
        let written = decode(source).unwrap().encode();
        let read_members = read.members().unwrap();
        let written_members = written.members().unwrap();
        assert_eq!(read_members.len(), written_members.len());
        for m in read_members {
            let again = find(written_members, &m.key).unwrap();
            if m.key == "discounts" {
                let read_discounts = decode_discounts(m.value.items().unwrap());
                assert!(read_discounts.is_ok());
                assert_eq!(decode_discounts(again.items().unwrap()), read_discounts);
            } else {
                assert_eq!(again, &m.value);
            }
        }
        for m in written_members {
            assert!(find(read_members, &m.key).is_some());
        }
    }
}

#[test]
fn product_round_trip_keeps_number_literals() {
    let json = with(PLAIN, "priceMicros", number("989999.9375"));
    let product = Product::decode(&json).unwrap();
    assert_eq!(product.price_micros, "989999.9375");
    assert_eq!(find(product.encode().members().unwrap(), "priceMicros"), Some(&number("989999.9375")));
}

#[test]
fn decode_discount_reads_every_field() {
    let json = parse(
        "{\"id\":\"winter\",\"type\":\"Subscription\",\"price\":\"1.49\",\"priceMicros\":1490000.0,\
\"period\":3,\"periodUnit\":\"Month\",\"paymentMode\":\"PayAsYouGo\"}",
    )
    .unwrap();
    assert_eq!(Discount::decode(&json), Ok(discount()));
}

#[test]
fn decode_discount_reports_what_is_wrong() {
    let base = discount().encode();
    let members = |skip: &str| match discount().encode() {
        Json::Object(members) => {
            Json::Object(members.into_iter().filter(|m| m.key != skip).collect())
        }
        other => other,
    };
    for key in ["id", "type", "price", "priceMicros", "period", "periodUnit", "paymentMode"] {
        assert_eq!(Discount::decode(&members(key)), Err(DecodeError::MissingField(key.to_string())));
    }
    assert_eq!(Discount::decode(&Json::Null), Err(DecodeError::ExpectedObject));
    assert_eq!(Discount::decode(&base), Ok(discount()));
}

#[test]
fn discount_round_trip() {
    for kind in [DiscountType::Introductory, DiscountType::Subscription] {
        for mode in [PaymentMode::PayAsYouGo, PaymentMode::UpFront, PaymentMode::FreeTrial] {
            for period in [0, 1, -1, i32::MAX, i32::MIN] {
                let value = Discount { kind, payment_mode: mode, period, ..discount() };
                assert_eq!(Discount::decode(&value.encode()), Ok(value));
            }
        }
    }
}

#[test]
fn decode_discounts_keeps_the_order_and_stops_at_the_first_fault() {
    let first = discount();
    let second = Discount { id: "summer".to_string(), ..discount() };
    let items = vec![first.encode(), second.encode()];
    assert_eq!(decode_discounts(&items), Ok(vec![first.clone(), second.clone()]));
    assert_eq!(decode_discounts(&vec![]), Ok(vec![]));
    let faulty = vec![first.encode(), Json::Null, text("x")];
    assert_eq!(decode_discounts(&faulty), Err(DecodeError::ExpectedObject));
    assert_eq!(encode_discounts(&vec![first.clone(), second.clone()]), Json::Array(items));
}

#[test]
fn decode_products_reads_a_list() {
    let text = format!("[{},{}]", PLAIN, FULL);
    assert_eq!(
        decode_products(&parse(&text).unwrap()),
        Ok(vec![plain_product(), full_product()])
    );
    assert_eq!(decode_products(&parse("[]").unwrap()), Ok(vec![]));
}

#[test]
fn decode_products_wants_a_list_of_products() {
    assert_eq!(decode_products(&parse(PLAIN).unwrap()), Err(DecodeError::ExpectedArray));
    assert_eq!(decode_products(&parse("null").unwrap()), Err(DecodeError::ExpectedArray));
    assert_eq!(decode_products(&parse("[1]").unwrap()), Err(DecodeError::ExpectedObject));
    let text = format!("[{},{{\"id\":\"x\"}},7]", PLAIN);
    assert_eq!(
        decode_products(&parse(&text).unwrap()),
        Err(DecodeError::MissingField("title".to_string()))
    );
}

#[test]
fn encode_products_writes_a_list() {
    assert_eq!(
        encode_products(&vec![plain_product(), full_product()]),
        Json::Array(vec![plain_product().encode(), full_product().encode()])
    );
    assert_eq!(encode_products(&vec![]), Json::Array(vec![]));
}

#[test]
fn decode_product_refuses_a_number_that_is_no_literal() {
    for literal in ["", "abc", "1.", "01", "1e"] {
        assert_eq!(
            Product::decode(&with(FULL, "priceMicros", number(literal))),
            Err(DecodeError::InvalidField("priceMicros".to_string()))
        );
        assert_eq!(
            Product::decode(&with(FULL, "introPriceMicros", number(literal))),
            Err(DecodeError::InvalidField("introPriceMicros".to_string()))
        );
    }
}

#[test]
fn is_wf_wants_number_literals() {
    assert!(discount().is_wf());
    assert!(!Discount { price_micros: "a lot".to_string(), ..discount() }.is_wf());
    assert!(!Product { price_micros: "".to_string(), ..plain_product() }.is_wf());
    assert!(!Product { intro_price_micros: Some("1.".to_string()), ..full_product() }.is_wf());
    let bad = Discount { price_micros: "1e".to_string(), ..discount() };
    assert!(!Product { discounts: Some(vec![discount(), bad]), ..full_product() }.is_wf());
    assert!(Product { discounts: Some(vec![]), ..full_product() }.is_wf());
    assert!(full_product().intro_price_consistent());
}

#[test]
fn decode_discount_refuses_a_number_that_is_no_literal() {
    let json = match discount().encode() {
        Json::Object(members) => Json::Object(
            members
                .into_iter()
                .map(|m| if m.key == "priceMicros" { member("priceMicros", number("1.2.3")) } else { m })
                .collect(),
        ),
        other => other,
    };
    assert_eq!(Discount::decode(&json), Err(DecodeError::InvalidField("priceMicros".to_string())));
}
