use bunyan_view::condition_filter::condition_script;
use bunyan_view::inspect_logger::{escape, format_long_line, inspect, write_inspect_line};
use bunyan_view::json::{JsonNumber, JsonValue};

#[test]
fn escapes_are_written_for_four_characters() {
    assert_eq!(escape("a\u{8}b\u{c}c\rd\te\nf\\g'"), "a\\bb\\fc\\rd\\te\nf\\g'");
    assert_eq!(escape(""), "");
}

#[test]
fn long_line_is_cut_at_its_line_feeds() {
    assert_eq!(format_long_line("ab\ncd", "  "), "ab\\n' +\n  'cd");
    assert_eq!(format_long_line("ab\ncd \n\n", ""), "ab\\n' +\n'cd\\n");
    assert_eq!(format_long_line("no breaks\there", "    "), "no breaks\\there");
}

#[test]
fn line_is_written_as_an_object_literal() {
    let map = vec![
        (String::from("name"), JsonValue::String(String::from("a\nb"))),
        (String::from("pid"), JsonValue::Number(JsonNumber::from_u64(12))),
        (String::from("ok"), JsonValue::Bool(true)),
        (String::from("none"), JsonValue::Null),
        (String::from("list"), JsonValue::Array(vec![
            JsonValue::Number(JsonNumber::from_i64(-1)),
            JsonValue::String(String::from("x")),
        ])),
        (String::from("empty"), JsonValue::Array(vec![])),
        (String::from("bare"), JsonValue::Object(vec![])),
        (String::from("obj"), JsonValue::Object(vec![
            (String::from("k"), JsonValue::Object(vec![
                (String::from("deep"), JsonValue::Number(JsonNumber::from_u64(1))),
            ])),
            (String::from("l"), JsonValue::Null),
        ])),
    ];
    assert_eq!(
        write_inspect_line(&map, false),
        "{\n  name: 'a\\nb',\n  pid: 12,\n  ok: true,\n  none: null,\n  list: [ -1, 'x' ],\n  empty: [],\n  bare: {},\n  obj: {\n    k: {\n      deep: 1\n    },\n    l: null\n  }\n}\n"
    );
}

#[test]
fn string_of_more_than_eighty_characters_is_cut() {
    let long = format!("{}\n{}", "a".repeat(50), "b".repeat(40));
    let map = vec![(String::from("text"), JsonValue::String(long))];
    assert_eq!(
        write_inspect_line(&map, false),
        format!("{{\n  text: '{}\\n' +\n    '{}'\n}}\n", "a".repeat(50), "b".repeat(40))
    );
}

#[test]
fn colours_wrap_keys_and_values() {
    let map = vec![(String::from("k"), JsonValue::Number(JsonNumber::from_u64(1)))];
    assert_eq!(
        write_inspect_line(&map, true),
        "\u{1b}[97m\u{1b}[0m{\n  \u{1b}[97mk\u{1b}[0m: \u{1b}[33m1\u{1b}[0m\n}\n"
    );
    let text = vec![(String::from("k"), JsonValue::Bool(false))];
    assert_eq!(
        write_inspect_line(&text, true),
        "\u{1b}[97m\u{1b}[0m{\n  \u{1b}[97mk\u{1b}[0m: \u{1b}[32m\u{1b}[0mfalse\n}\n"
    );
}

#[test]
fn line_that_is_no_object_is_not_inspected() {
    assert_eq!(inspect("[1]", false), None);
    assert_eq!(inspect("nope", false), None);
    assert_eq!(inspect("{\"b\":1.5,\"a\":\"s\"}", false), Some(String::from("{\n  b: 1.5,\n  a: 's'\n}\n")));
    assert_eq!(inspect("{}", false), Some(String::from("{\n\n}\n")));
}

#[test]
fn condition_is_called_with_the_line_as_this() {
    assert_eq!(
        condition_script("this.pid == 1", "{\"pid\":1}"),
        "(function (){return (this.pid == 1)}).call({\"pid\":1})"
    );
}

#[test]
fn length_of_a_string_counts_bytes() {
    let wide = format!("{}\nx", "\u{e9}".repeat(40));
    let map = vec![(String::from("t"), JsonValue::String(wide))];
    assert_eq!(
        write_inspect_line(&map, false),
        format!("{{\n  t: '{}\\n' +\n    'x'\n}}\n", "\u{e9}".repeat(40))
    );
    let narrow = format!("{}\nx", "e".repeat(78));
    let short = vec![(String::from("t"), JsonValue::String(narrow))];
    assert_eq!(
        write_inspect_line(&short, false),
        format!("{{\n  t: '{}\\nx'\n}}\n", "e".repeat(78))
    );
}
