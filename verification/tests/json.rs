use tauri_plugin_iap::json::{find, find_present, parse, Json, Member};

fn member(key: &str, value: Json) -> Member {
    Member { key: key.to_string(), value }
}

#[test]
fn parse_gives_the_document() {
    assert_eq!(parse("null"), Ok(Json::Null));
    assert_eq!(parse("true"), Ok(Json::Bool(true)));
    assert_eq!(parse(" \"a\\nb\" "), Ok(Json::Str("a\nb".to_string())));
    assert_eq!(
        parse("[1, \"x\", []]"),
        Ok(Json::Array(vec![
            Json::Number("1".to_string()),
            Json::Str("x".to_string()),
            Json::Array(vec![]),
        ]))
    );
    assert_eq!(
        parse("{\"id\": \"p1\", \"n\": {\"deep\": null}}"),
        Ok(Json::Object(vec![
            member("id", Json::Str("p1".to_string())),
            member("n", Json::Object(vec![member("deep", Json::Null)])),
        ]))
    );
}

#[test]
fn parse_keeps_integers_as_canonical_literals() {
    assert_eq!(parse("0"), Ok(Json::Number("0".to_string())));
    assert_eq!(parse("-17"), Ok(Json::Number("-17".to_string())));
    assert_eq!(parse("18446744073709551615"), Ok(Json::Number("18446744073709551615".to_string())));
    assert_eq!(parse("-9223372036854775808"), Ok(Json::Number("-9223372036854775808".to_string())));
}

#[test]
fn parse_marks_fractions_and_exponents() {
    assert_eq!(parse("1.0"), Ok(Json::Number("1.0".to_string())));
    assert_eq!(parse("0.5"), Ok(Json::Number("0.5".to_string())));
    assert_eq!(parse("1e2"), Ok(Json::Number("100.0".to_string())));
    assert_eq!(parse("-0"), Ok(Json::Number("-0.0".to_string())));
}

#[test]
fn parse_reports_the_parser_s_message() {
    for text in ["", "{", "[1,", "nul", "{\"a\" 1}", "[1] 2", "\"open", "01"] {
        let expected = serde_json::from_str::<serde_json::Value>(text).unwrap_err().to_string();
        assert_eq!(parse(text), Err(expected));
    }
    assert_eq!(parse(""), Err("EOF while parsing a value at line 1 column 0".to_string()));
}

#[test]
fn parse_agrees_with_itself() {
    let text = "{\"b\": [1, 2.50, {\"c\": \"d\"}], \"a\": false}";
    assert_eq!(parse(text), parse(text));
}

#[test]
fn find_gives_the_first_member_with_the_key() {
    let members = vec![
        member("a", Json::Bool(false)),
        member("b", Json::Null),
        member("a", Json::Bool(true)),
    ];
    assert_eq!(find(&members, "a"), Some(&Json::Bool(false)));
    assert_eq!(find(&members, "b"), Some(&Json::Null));
    assert_eq!(find(&members, "c"), None);
    assert_eq!(find(&vec![], "a"), None);
}

#[test]
fn find_present_takes_null_for_no_value() {
    let members = vec![member("a", Json::Null), member("b", Json::Number("1".to_string()))];
    assert_eq!(find_present(&members, "a"), None);
    assert_eq!(find_present(&members, "b"), Some(&Json::Number("1".to_string())));
    assert_eq!(find_present(&members, "c"), None);
}

#[test]
fn members_and_items_tell_objects_and_lists_apart() {
    let object = Json::Object(vec![member("a", Json::Null)]);
    let list = Json::Array(vec![Json::Null]);
    assert_eq!(object.members().map(|m| m.len()), Some(1));
    assert!(object.items().is_none());
    assert_eq!(list.items().map(|m| m.len()), Some(1));
    assert!(list.members().is_none());
    assert!(Json::Null.members().is_none());
    assert!(Json::Str("x".to_string()).items().is_none());
}
