use bunyan_view::{render_line, LogFormat, LoggerOutputConfig, Verdict};

fn config() -> LoggerOutputConfig {
    LoggerOutputConfig {
        indent: 4,
        is_strict: false,
        is_debug: false,
        level: None,
        display_local_time: false,
        colorize: false,
    }
}

fn record(rest: &str) -> String {
    format!(
        "{{\"name\":\"app\",\"hostname\":\"box\",\"pid\":42,\"level\":30,\"msg\":\"m\",\"time\":\"2012-02-08T22:56:52.856Z\"{}}}",
        rest
    )
}

fn show(rest: &str) -> String {
    render_line(&record(rest), 1, &LogFormat::Long, &config(), Verdict::Keep).output
}

const TOP: &str = "[2012-02-08T22:56:52.856Z]  INFO: app/42 on box: m";

#[test]
fn component_stands_between_name_and_pid() {
    assert_eq!(
        show(",\"component\":\"db\""),
        "[2012-02-08T22:56:52.856Z]  INFO: app/db/42 on box: m\n"
    );
}

#[test]
fn empty_message_leaves_the_bare_colon() {
    let line = "{\"name\":\"app\",\"hostname\":\"box\",\"pid\":42,\"level\":30,\"msg\":\"\",\"time\":\"2012-02-08T22:56:52.856Z\",\"k\":1}";
    assert_eq!(
        render_line(line, 1, &LogFormat::Long, &config(), Verdict::Keep).output,
        "[2012-02-08T22:56:52.856Z]  INFO: app/42 on box: (k=1)\n"
    );
}

#[test]
fn levels_are_padded_to_five_characters() {
    for (level, field) in [
        (10, "TRACE"),
        (20, "DEBUG"),
        (30, " INFO"),
        (40, " WARN"),
        (50, "ERROR"),
        (60, "FATAL"),
        (5, " LVL5"),
        (35, "LVL35"),
        (1001, "LVL1001"),
    ] {
        let line = format!(
            "{{\"name\":\"a\",\"hostname\":\"h\",\"pid\":1,\"level\":{},\"msg\":\"m\",\"time\":\"1970-01-01T00:00:00Z\"}}",
            level
        );
        assert_eq!(
            render_line(&line, 1, &LogFormat::Long, &config(), Verdict::Keep).output,
            format!("[1970-01-01T00:00:00.000Z] {}: a/1 on h: m\n", field)
        );
    }
}

#[test]
fn source_location_follows_the_host() {
    assert_eq!(
        show(",\"src\":{\"file\":\"a.js\",\"line\":12,\"func\":\"run\"}"),
        "[2012-02-08T22:56:52.856Z]  INFO: app/42 on box (a.js:12 in run): m\n"
    );
    assert_eq!(
        show(",\"src\":{\"file\":\"a.js\"}"),
        "[2012-02-08T22:56:52.856Z]  INFO: app/42 on box (a.js): m\n"
    );
    assert_eq!(
        show(",\"src\":\"b.js\""),
        "[2012-02-08T22:56:52.856Z]  INFO: app/42 on box (b.js): m\n"
    );
    assert_eq!(show(",\"src\":{\"line\":\"12\"}"), format!("{}\n", TOP));
}

#[test]
fn request_section_has_line_headers_and_body() {
    assert_eq!(
        show(",\"req\":{\"method\":\"GET\",\"url\":\"/x\",\"httpVersion\":\"1.0\",\"headers\":{\"host\":\"h\",\"accept\":\"a\\nb\"},\"body\":\"one\\ntwo\",\"trailers\":{\"t\":1}}"),
        format!(
            "{}\n    GET /x HTTP/1.0\n    host: h\n    accept: a\n    b\n    one\n    two\n    t: 1\n",
            TOP
        )
    );
}

#[test]
fn request_without_method_and_url_is_shown_as_undefined() {
    assert_eq!(
        show(",\"req\":{}"),
        format!("{}\n    undefined undefined HTTP/1.1\n", TOP)
    );
    assert_eq!(
        show(",\"req\":{\"method\":\"PUT\",\"url\":\"/\",\"httpVersion\":2}"),
        format!("{}\n    PUT / HTTP/1.1\n", TOP)
    );
    assert_eq!(
        show(",\"req\":{\"method\":null,\"url\":7,\"httpVersion\":null}"),
        format!("{}\n    null 7 HTTP/1.1\n", TOP)
    );
}

#[test]
fn request_shows_header_and_headers_and_an_object_body() {
    assert_eq!(
        show(",\"req\":{\"method\":\"POST\",\"url\":\"/\",\"headers\":\"b: 2\\r\\n\\r\\n\",\"header\":{\"a\":\"1\"},\"body\":{\"k\":[1,\"s\"]}}"),
        format!(
            "{}\n    POST / HTTP/1.1\n    a: 1\n    b: 2\n    {{\n      \"k\": [\n        1,\n        \"s\"\n      ]\n    }}\n",
            TOP
        )
    );
}

#[test]
fn client_request_names_the_connecting_host() {
    assert_eq!(
        show(",\"client_req\":{\"method\":\"GET\",\"url\":\"/\",\"address\":\"10.0.0.1\",\"port\":8080}"),
        format!("{}\n    GET / HTTP/1.1\n    Connecting Host: 10.0.0.1:8080\n", TOP)
    );
    assert_eq!(
        show(",\"client_req\":{\"method\":\"GET\",\"url\":\"/\",\"address\":\"h\",\"port\":null}"),
        format!("{}\n    GET / HTTP/1.1\n    Connecting Host: h\n", TOP)
    );
    assert_eq!(
        show(",\"client_req\":{\"method\":\"GET\",\"url\":\"/\",\"address\":null,\"port\":\"80\"}"),
        format!("{}\n    GET / HTTP/1.1\n    Connecting Host: null:80\n", TOP)
    );
    assert_eq!(
        show(",\"client_req\":{\"method\":\"GET\",\"url\":\"/\",\"address\":7}"),
        format!("{}\n    GET / HTTP/1.1\n    Connecting Host: 7\n", TOP)
    );
    assert_eq!(
        show(",\"client_req\":{\"method\":\"GET\",\"url\":\"/\",\"port\":80}"),
        format!("{}\n    GET / HTTP/1.1\n", TOP)
    );
}

#[test]
fn header_text_of_a_request_loses_blank_lines_and_of_a_response_empty_ones() {
    assert_eq!(
        show(",\"req\":{\"method\":\"GET\",\"url\":\"/\",\"headers\":\"a: 1\\n  \\n\\nb: 2\"}"),
        format!("{}\n    GET / HTTP/1.1\n    a: 1\n    b: 2\n", TOP)
    );
    assert_eq!(
        show(",\"res\":{\"headers\":\"a: 1\\n  \\n\\nb: 2\"}"),
        format!("{}\n    a: 1\n      \n    b: 2\n", TOP)
    );
}

#[test]
fn response_prefers_header_to_headers() {
    assert_eq!(
        show(",\"res\":{\"statusCode\":404,\"headers\":{\"a\":\"1\"},\"header\":{\"b\":\"2\"}}"),
        format!("{}\n    HTTP/1.1 404 Not Found\n    b: 2\n", TOP)
    );
    assert_eq!(
        show(",\"res\":{\"statusCode\":\"301\",\"headers\":{\"a\":\"1\"}}"),
        format!("{}\n    HTTP/1.1 301 Moved Permanently\n    a: 1\n", TOP)
    );
}

#[test]
fn response_takes_the_version_from_a_header_text() {
    assert_eq!(
        show(",\"res\":{\"statusCode\":200,\"header\":\"HTTP/1.0 200 OK\\r\\nA: b\\r\\n\\r\\n\"}"),
        format!("{}\n    HTTP/1.0 200 OK\n    HTTP/1.0 200 OK\n    A: b\n", TOP)
    );
    assert_eq!(
        show(",\"res\":{\"statusCode\":200,\"header\":\"HTTP/2\"}"),
        format!("{}\n    HTTP/1.1 200 OK\n    HTTP/2\n", TOP)
    );
}

#[test]
fn response_without_a_status_code_has_no_status_line() {
    assert_eq!(
        show(",\"res\":{\"header\":{\"a\":\"1\"}}"),
        format!("{}\n    a: 1\n", TOP)
    );
    assert_eq!(show(",\"res\":{}"), format!("{}\n", TOP));
}

#[test]
fn unknown_status_code_has_an_empty_reason() {
    assert_eq!(
        show(",\"res\":{\"statusCode\":299}"),
        format!("{}\n    HTTP/1.1 299 \n", TOP)
    );
}

#[test]
fn response_body_follows_an_empty_line() {
    assert_eq!(
        show(",\"res\":{\"statusCode\":200,\"body\":\"hello\\nworld\"}"),
        format!("{}\n    HTTP/1.1 200 OK\n\n    hello\n    world\n", TOP)
    );
    assert_eq!(
        show(",\"res\":{\"statusCode\":200,\"body\":\"\"}"),
        format!("{}\n    HTTP/1.1 200 OK\n", TOP)
    );
    assert_eq!(
        show(",\"res\":{\"statusCode\":200,\"body\":{\"ok\":true}}"),
        format!("{}\n    HTTP/1.1 200 OK\n\n    {{\n      \"ok\": true\n    }}\n", TOP)
    );
}

#[test]
fn error_stack_is_shown_line_by_line() {
    assert_eq!(
        show(",\"err\":{\"message\":\"boom\",\"name\":\"E\",\"stack\":\"E: boom\\n    at f (a.js:1)\"}"),
        format!(
            "{} (err.message=boom, err.name=E)\n    E: boom\n        at f (a.js:1)\n",
            TOP
        )
    );
    assert_eq!(
        show(",\"err\":{\"stack\":[\"one\",2,null]}"),
        format!("{}\n    one\n    2\n    null\n", TOP)
    );
    assert_eq!(
        show(",\"err\":{\"stack\":{\"at\":1}}"),
        format!("{}\n    {{\n      \"at\": 1\n    }}\n", TOP)
    );
}

#[test]
fn sections_come_in_their_order_with_dividers_between() {
    assert_eq!(
        show(",\"long\":\"aaaaaaaaaaaaaaaaaaaaaaaaaaaaaaaaaaaaaaaaaaaaaaaaaaaaaaaaaaaa\",\"nested\":{\"k\":\"v\"},\"err\":{\"stack\":\"S\"},\"client_res\":{\"statusCode\":500},\"res\":{\"statusCode\":200},\"client_req\":{\"method\":\"A\",\"url\":\"b\"},\"req\":{\"method\":\"C\",\"url\":\"d\"}"),
        format!(
            "{}\n    C d HTTP/1.1\n    --\n    A b HTTP/1.1\n    --\n    HTTP/1.1 200 OK\n    --\n    HTTP/1.1 500 Internal Server Error\n    --\n    S\n    --\n    nested: {{\n      \"k\": \"v\"\n    }}\n    --\n    long: aaaaaaaaaaaaaaaaaaaaaaaaaaaaaaaaaaaaaaaaaaaaaaaaaaaaaaaaaaaa\n",
            TOP
        )
    );
}

#[test]
fn empty_sections_take_no_divider() {
    assert_eq!(
        show(",\"req\":{\"method\":\"C\",\"url\":\"d\"},\"res\":{},\"err\":{},\"a\":[1]"),
        format!("{}\n    C d HTTP/1.1\n    --\n    a: [\n      1\n    ]\n", TOP)
    );
}

#[test]
fn extras_of_reserved_objects_are_classified_under_their_object() {
    assert_eq!(
        show(",\"req\":{\"method\":\"C\",\"url\":\"d\",\"user\":{\"id\":1},\"note\":\"x\\ny\"},\"k\":\"v\""),
        format!(
            "{} (k=v)\n    C d HTTP/1.1\n    --\n    req.user: {{\n      \"id\": 1\n    }}\n    --\n    req.note: x\n    y\n",
            TOP
        )
    );
}

#[test]
fn multiline_message_is_the_first_detail() {
    let line = "{\"name\":\"app\",\"hostname\":\"box\",\"pid\":42,\"level\":30,\"msg\":\"a\\nb\",\"time\":\"2012-02-08T22:56:52.856Z\",\"text\":\"c\\nd\",\"obj\":{\"e\":1}}";
    assert_eq!(
        render_line(line, 1, &LogFormat::Long, &config(), Verdict::Keep).output,
        "[2012-02-08T22:56:52.856Z]  INFO: app/42 on box:\n    obj: {\n      \"e\": 1\n    }\n    --\n    a\n    b\n    --\n    text: c\n    d\n"
    );
}

#[test]
fn strings_in_nested_dumps_are_json_strings() {
    assert_eq!(
        show(",\"o\":{\"s\":\"q\\\"t\\n\",\"e\":{},\"l\":[],\"n\":null,\"f\":false}"),
        format!(
            "{}\n    o: {{\n      \"s\": \"q\\\"t\\n\",\n      \"e\": {{}},\n      \"l\": [],\n      \"n\": null,\n      \"f\": false\n    }}\n",
            TOP
        )
    );
}
