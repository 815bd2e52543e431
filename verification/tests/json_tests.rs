use bunyan_view::errors::ParseIntFromJsonError;
use bunyan_view::json::{
    get, parse_json, plain_text_of, push_compact, push_pretty, JsonNumber, JsonValue,
};
use bunyan_view::validate::json_string_or_number_as_u16;

fn parsed(text: &str) -> JsonValue {
    match parse_json(text) {
        Ok(tree) => tree,
        Err(failure) => panic!("{}", failure.message),
    }
}

#[test]
fn parses_an_object_in_input_order() {
    let parsed = parse_json("{\"b\": 1, \"a\": [true, null]}");
    match parsed {
        Ok(JsonValue::Object(members)) => {
            assert_eq!(members.len(), 2);
            assert_eq!(members[0].0, "b");
            assert_eq!(members[1].0, "a");
        }
        _ => panic!("expected an object"),
    }
}

#[test]
fn numbers_keep_their_text_and_their_unsigned_value() {
    match parsed("[0, 18446744073709551615, -3, 2.50, 1e3]") {
        JsonValue::Array(items) => {
            let seen: Vec<(String, Option<u64>)> = items
                .iter()
                .map(|item| match item {
                    JsonValue::Number(n) => (n.text.clone(), n.unsigned),
                    _ => panic!("expected a number"),
                })
                .collect();
            assert_eq!(
                seen,
                vec![
                    (String::from("0"), Some(0)),
                    (String::from("18446744073709551615"), Some(u64::MAX)),
                    (String::from("-3"), None),
                    (String::from("2.5"), None),
                    (String::from("1000.0"), None),
                ]
            );
        }
        _ => panic!("expected an array"),
    }
}

#[test]
fn failure_carries_message_and_column() {
    match parse_json("{\"a\": tru}") {
        Ok(_) => panic!("expected a failure"),
        Err(failure) => {
            assert_eq!(failure.message, "expected ident at line 1 column 10");
            assert_eq!(failure.column, 10);
        }
    }
}

#[test]
fn first_member_of_a_name_is_found() {
    let members = vec![
        (String::from("a"), JsonValue::Bool(true)),
        (String::from("b"), JsonValue::Null),
        (String::from("a"), JsonValue::Bool(false)),
    ];
    assert!(matches!(get(&members, "a"), Some(JsonValue::Bool(true))));
    assert!(matches!(get(&members, "b"), Some(JsonValue::Null)));
    assert!(get(&members, "c").is_none());
    assert!(get(&members, "").is_none());
}

#[test]
fn compact_json_has_no_blank_space() {
    let tree = parsed("{\"a\": [1, \"two\\n\", {\"k\": null}, [], {}], \"b\\\"c\": false}");
    let mut out = String::from("=");
    push_compact(&mut out, &tree);
    assert_eq!(out, "={\"a\":[1,\"two\\n\",{\"k\":null},[],{}],\"b\\\"c\":false}");
}

#[test]
fn plain_text_keeps_a_string_as_it_is() {
    assert_eq!(plain_text_of(&JsonValue::String(String::from("a \"b\"\n"))), "a \"b\"\n");
    assert_eq!(plain_text_of(&JsonValue::Null), "null");
    assert_eq!(plain_text_of(&JsonValue::Bool(true)), "true");
    assert_eq!(plain_text_of(&parsed("[\"a\"]")), "[\"a\"]");
}

#[test]
fn indented_json_puts_one_item_on_a_line() {
    let tree = parsed("{\"a\": [1, {\"k\": \"v\"}], \"e\": {}, \"l\": [[]]}");
    let mut out = String::from("  head: ");
    push_pretty(&mut out, &tree, "  ");
    assert_eq!(
        out,
        "  head: {\n    \"a\": [\n      1,\n      {\n        \"k\": \"v\"\n      }\n    ],\n    \"e\": {},\n    \"l\": [\n      []\n    ]\n  }"
    );
}

#[test]
fn numbers_are_made_from_integers() {
    let seven = JsonNumber::from_u64(7);
    assert_eq!(seven.text, "7");
    assert_eq!(seven.unsigned, Some(7));
    let minus = JsonNumber::from_i64(-12);
    assert_eq!(minus.text, "-12");
    assert_eq!(minus.unsigned, None);
    let plus = JsonNumber::from_i64(12);
    assert_eq!(plus.text, "12");
    assert_eq!(plus.unsigned, Some(12));
}

#[test]
fn status_codes_are_read_from_numbers_and_strings() {
    assert_eq!(json_string_or_number_as_u16(&parsed("200")).ok(), Some(200));
    assert_eq!(json_string_or_number_as_u16(&parsed("\"404\"")).ok(), Some(404));
    assert_eq!(json_string_or_number_as_u16(&parsed("65535")).ok(), Some(65535));
    match json_string_or_number_as_u16(&parsed("\"two hundred\"")) {
        Err(ParseIntFromJsonError::Numeric(text)) => assert_eq!(text, "two hundred"),
        _ => panic!("expected a numeric failure"),
    }
    for text in ["65536", "-1", "2.5", "null", "true", "[200]", "{}"] {
        match json_string_or_number_as_u16(&parsed(text)) {
            Err(ParseIntFromJsonError::Structure(e)) => {
                assert_eq!(e.description(), "expected a number from 0 to 65535 or a string")
            }
            _ => panic!("expected a failure of structure for {}", text),
        }
    }
}

#[test]
fn key_that_is_written_twice_is_held_once() {
    match parsed("{\"a\": 1, \"b\": {\"k\": 1, \"k\": 2}, \"a\": 3}") {
        JsonValue::Object(members) => {
            let keys: Vec<&str> = members.iter().map(|member| member.0.as_str()).collect();
            assert_eq!(keys, vec!["a", "b"]);
            assert!(matches!(&members[0].1, JsonValue::Number(n) if n.text == "3"));
            match &members[1].1 {
                JsonValue::Object(inner) => {
                    assert_eq!(inner.len(), 1);
                    assert!(matches!(&inner[0].1, JsonValue::Number(n) if n.text == "2"));
                }
                _ => panic!("expected an object"),
            }
        }
        _ => panic!("expected an object"),
    }
}
