use bunyan_view::extras::{
    classify, collect_inline_pairs, is_empty_object, is_multiline_string, is_object_with_keys,
    Class, LONG_LINE_SIZE,
};
use bunyan_view::json::{parse_json, JsonNumber, JsonValue};

#[test]
fn multiline_verify_new_line_is_detected() {
    let multiline: JsonValue = JsonValue::String(String::from("this\nhas\new lines"));
    assert_eq!(is_multiline_string(&multiline), true);
}

#[test]
fn multiline_verify_long_line_is_detected() {
    let multiline: JsonValue =
        JsonValue::String(format!("{:repeat$}", "-", repeat = LONG_LINE_SIZE + 1));
    assert_eq!(is_multiline_string(&multiline), true);
}

#[test]
fn multiline_verify_no_new_line_is_detected() {
    let multiline: JsonValue = JsonValue::String(String::from("this has no new lines"));
    assert_eq!(is_multiline_string(&multiline), false);
}

#[test]
fn string_of_fifty_characters_is_still_inline() {
    let fifty = JsonValue::String("x".repeat(50));
    assert_eq!(classify(&fifty), Class::Inline);
    let fifty_one = JsonValue::String("x".repeat(51));
    assert_eq!(classify(&fifty_one), Class::Multiline);
}

#[test]
fn length_counts_characters() {
    let fifty = JsonValue::String("\u{e9}".repeat(50));
    assert_eq!(classify(&fifty), Class::Inline);
}

#[test]
fn class_depends_on_the_shape_alone() {
    assert_eq!(classify(&JsonValue::Null), Class::Inline);
    assert_eq!(classify(&JsonValue::Bool(true)), Class::Inline);
    assert_eq!(classify(&JsonValue::Number(JsonNumber::from_u64(7))), Class::Inline);
    assert_eq!(classify(&JsonValue::Array(vec![])), Class::Inline);
    assert_eq!(classify(&JsonValue::Object(vec![])), Class::Inline);
    assert_eq!(classify(&JsonValue::Array(vec![JsonValue::Null])), Class::Nested);
    assert_eq!(
        classify(&JsonValue::Object(vec![(String::from("k"), JsonValue::Null)])),
        Class::Nested
    );
}

#[test]
fn objects_with_and_without_keys() {
    let empty = JsonValue::Object(vec![]);
    let full = JsonValue::Object(vec![(String::from("k"), JsonValue::Null)]);
    assert!(!is_object_with_keys(&empty));
    assert!(is_object_with_keys(&full));
    assert!(is_empty_object(&empty));
    assert!(!is_empty_object(&full));
    assert!(is_empty_object(&JsonValue::Null));
    assert!(!is_object_with_keys(&JsonValue::Array(vec![JsonValue::Null])));
}

fn members(text: &str) -> Vec<(String, JsonValue)> {
    match parse_json(text) {
        Ok(JsonValue::Object(members)) => members,
        _ => panic!("expected an object"),
    }
}

#[test]
fn req_id_comes_first_among_the_inline_pairs() {
    let other = members("{\"a\":1,\"req_id\":\"r-1\",\"b\":\"two words\",\"c\":null,\"d\":true}");
    assert_eq!(
        collect_inline_pairs(&other),
        vec!["req_id=r-1", "a=1", "b=\"two words\"", "c=null", "d=true"]
    );
}

#[test]
fn empty_containers_are_inline() {
    let other = members("{\"a\":{},\"b\":[],\"c\":-2.5}");
    assert_eq!(collect_inline_pairs(&other), vec!["a={}", "b=[]", "c=-2.5"]);
}

#[test]
fn reserved_members_are_no_inline_pairs() {
    let other = members(
        "{\"src\":\"f.js\",\"req\":{\"method\":\"GET\",\"extra\":1},\"res\":{\"statusCode\":200},\"err\":{\"stack\":\"s\",\"code\":\"E\"},\"x\":1}",
    );
    assert_eq!(collect_inline_pairs(&other), vec!["x=1", "req.extra=1", "err.code=E"]);
}

#[test]
fn reserved_key_with_a_scalar_is_shown_under_its_own_name() {
    let other = members("{\"res\":\"done\",\"req\":5}");
    assert_eq!(collect_inline_pairs(&other), vec!["res=done", "req=5"]);
}

#[test]
fn client_request_knows_address_and_port() {
    let other = members(
        "{\"client_req\":{\"address\":\"h\",\"port\":80,\"id\":3},\"req\":{\"address\":\"h\"}}",
    );
    assert_eq!(collect_inline_pairs(&other), vec!["req.address=h", "client_req.id=3"]);
}
