use bunyan_view::{render_line, LogFormat, LoggerOutputConfig, Verdict};

fn config() -> LoggerOutputConfig {
    LoggerOutputConfig {
        indent: 4,
        is_strict: false,
        is_debug: false,
        level: None,
        display_local_time: false,
        colorize: false,
    }
}

fn show(line: &str) -> String {
    render_line(line, 1, &LogFormat::Long, &config(), Verdict::Keep).output
}

#[test]
fn simple_record_is_one_summary_line() {
    let line = "{\"name\":\"a\",\"hostname\":\"h\",\"pid\":1,\"level\":30,\"msg\":\"hi\",\"time\":\"1970-01-01T00:00:00.000Z\"}";
    assert_eq!(show(line), "[1970-01-01T00:00:00.000Z]  INFO: a/1 on h: hi\n");
}

#[test]
fn response_header_object_follows_status_line() {
    let line = "{\"name\":\"a\",\"hostname\":\"h\",\"pid\":1,\"level\":30,\"msg\":\"hi\",\"time\":\"1970-01-01T00:00:00.000Z\",\"res\":{\"statusCode\":200,\"header\":{\"content-type\":\"text/plain\"}}}";
    assert_eq!(
        show(line),
        "[1970-01-01T00:00:00.000Z]  INFO: a/1 on h: hi\n    HTTP/1.1 200 OK\n    content-type: text/plain\n"
    );
}

#[test]
fn multiline_message_goes_to_the_details() {
    let line = "{\"name\":\"a\",\"hostname\":\"h\",\"pid\":1,\"level\":30,\"msg\":\"line1\\nline2\",\"time\":\"1970-01-01T00:00:00.000Z\"}";
    assert_eq!(
        show(line),
        "[1970-01-01T00:00:00.000Z]  INFO: a/1 on h:\n    line1\n    line2\n"
    );
}

#[test]
fn array_body_of_a_request_passes_the_raw_line_through() {
    let line = "{\"name\":\"a\",\"hostname\":\"h\",\"pid\":1,\"level\":30,\"msg\":\"hi\",\"time\":\"1970-01-01T00:00:00.000Z\",\"req\":{\"body\":[1,2]}}";
    let mut expected = String::from(line);
    expected.push('\n');
    assert_eq!(show(line), expected);
}
