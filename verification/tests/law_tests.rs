use bunyan_view::json::{parse_json, JsonValue};
use bunyan_view::long_format_logger::{collect_sections, push_summary};
use bunyan_view::{BunyanLine, LogLevel, Logger, LoggerOutputConfig};

fn config(colorize: bool) -> LoggerOutputConfig {
    LoggerOutputConfig {
        indent: 4,
        is_strict: false,
        is_debug: false,
        level: None,
        display_local_time: false,
        colorize,
    }
}

fn record(line: &str) -> BunyanLine {
    match parse_json(line) {
        Ok(tree) => match BunyanLine::decode(tree) {
            Ok(record) => record,
            Err(fault) => panic!("{:?}", fault),
        },
        Err(failure) => panic!("{}", failure.message),
    }
}

const BUSY: &str = "{\"name\":\"app\",\"hostname\":\"box\",\"pid\":42,\"component\":\"c\",\"level\":50,\"msg\":\"first\\nsecond\",\"time\":\"2012-02-08T22:56:52.856Z\",\"v\":0,\"req_id\":\"r\",\"src\":{\"file\":\"f.js\",\"line\":3},\"k\":\"two words\",\"long\":\"a\\nb\",\"obj\":{\"x\":[1]},\"req\":{\"method\":\"GET\",\"url\":\"/\",\"who\":\"me\"},\"err\":{\"stack\":\"S\\nT\",\"code\":7}}";

#[test]
fn summary_is_one_line() {
    for colorize in [false, true] {
        let mut summary = String::new();
        push_summary(&mut summary, &record(BUSY), "2012-02-08T22:56:52.856Z", colorize);
        assert!(!summary.contains('\n'));
        let text = match record(BUSY).write_long_format(&config(colorize)) {
            Ok(text) => text,
            Err(error) => panic!("{}", error.description()),
        };
        assert_eq!(text.find('\n'), Some(summary.chars().count()));
        assert!(text.starts_with(&summary));
    }
    let mut plain = String::new();
    push_summary(&mut plain, &record(BUSY), "T", false);
    assert_eq!(
        plain,
        "[T] ERROR: app/c/42 on box (f.js:3): (req_id=r, k=\"two words\", req.who=me, err.code=7)"
    );
}

#[test]
fn rendering_again_gives_the_same_text() {
    let record = record(BUSY);
    let first = record.render("T", true);
    let second = record.render("T", true);
    assert_eq!(first, second);
    assert_eq!(record.write_long_format(&config(false)).ok(), record.write_long_format(&config(false)).ok());
}

#[test]
fn reserved_members_are_shown_once() {
    let record = record(BUSY);
    let text = record.render("T", false);
    assert_eq!(
        text,
        "[T] ERROR: app/c/42 on box (f.js:3): (req_id=r, k=\"two words\", req.who=me, err.code=7)\n    GET / HTTP/1.1\n    --\n    S\n    T\n    --\n    obj: {\n      \"x\": [\n        1\n      ]\n    }\n    --\n    first\n    second\n    --\n    long: a\n    b\n"
    );
    assert_eq!(text.matches("GET").count(), 1);
    assert_eq!(text.matches("f.js").count(), 1);
    assert_eq!(text.matches("req_id").count(), 1);
}

#[test]
fn sections_stand_in_their_order() {
    let sections = collect_sections(&record(BUSY), false);
    assert_eq!(
        sections,
        vec![
            "    GET / HTTP/1.1\n",
            "",
            "",
            "",
            "    S\n    T\n",
            "    obj: {\n      \"x\": [\n        1\n      ]\n    }\n",
            "    first\n    second\n",
            "    long: a\n    b\n",
        ]
    );
}

#[test]
fn record_holds_the_fields_and_the_rest_in_order() {
    let record = record(BUSY);
    assert_eq!(record.name, "app");
    assert_eq!(record.hostname, "box");
    assert_eq!(record.pid, 42);
    assert_eq!(record.component, Some(String::from("c")));
    assert_eq!(record.level, 50);
    assert_eq!(LogLevel::from(record.level), LogLevel::ERROR);
    assert_eq!(record.msg, "first\nsecond");
    assert_eq!(record.time.seconds, 1328741812);
    assert_eq!(record.time.nanos, 856_000_000);
    assert_eq!(record.v, Some(0));
    let keys: Vec<&str> = record.other.iter().map(|member| member.0.as_str()).collect();
    assert_eq!(keys, vec!["req_id", "src", "k", "long", "obj", "req", "err"]);
    assert!(matches!(record.other[2].1, JsonValue::String(_)));
}

#[test]
fn level_is_shown_in_a_field_of_five() {
    assert_eq!(LogLevel::INFO.display(false), " INFO");
    assert_eq!(LogLevel::TRACE.display(true), "TRACE");
    assert_eq!(LogLevel::DEBUG.display(true), "\u{1b}[33mDEBUG\u{1b}[0m");
    assert_eq!(LogLevel::INFO.display(true), " \u{1b}[36mINFO\u{1b}[0m");
    assert_eq!(LogLevel::WARN.display(true), " \u{1b}[35mWARN\u{1b}[0m");
    assert_eq!(LogLevel::ERROR.display(true), "\u{1b}[31mERROR\u{1b}[0m");
    assert_eq!(LogLevel::FATAL.display(true), "\u{1b}[7mFATAL\u{1b}[0m");
    assert_eq!(LogLevel::OTHER(1).display(true), " LVL1");
    assert_eq!(LogLevel::OTHER(12345).display(false), "LVL12345");
}

#[test]
fn member_that_is_written_twice_is_shown_once() {
    let line = "{\"name\":\"a\",\"hostname\":\"h\",\"pid\":1,\"level\":30,\"msg\":\"m\",\"time\":\"1970-01-01T00:00:00Z\",\"req\":{\"method\":\"OLD\",\"url\":\"/\"},\"k\":1,\"req\":{\"method\":\"NEW\",\"url\":\"/\"},\"k\":2}";
    let record = record(line);
    let keys: Vec<&str> = record.other.iter().map(|member| member.0.as_str()).collect();
    assert_eq!(keys, vec!["req", "k"]);
    assert_eq!(record.render("T", false), "[T]  INFO: a/1 on h: m (k=2)\n    NEW / HTTP/1.1\n");
}
