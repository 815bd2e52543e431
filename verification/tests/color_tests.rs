use bunyan_view::style::{push_painted, Style};
use bunyan_view::{render_line, LogFormat, LoggerOutputConfig, Verdict};

fn colored() -> LoggerOutputConfig {
    LoggerOutputConfig {
        indent: 4,
        is_strict: false,
        is_debug: false,
        level: None,
        display_local_time: false,
        colorize: true,
    }
}

fn paint(text: &str, style: Style, enabled: bool) -> String {
    let mut out = String::from(">");
    push_painted(&mut out, text, style, enabled);
    out
}

#[test]
fn style_stands_between_its_escape_and_the_reset() {
    assert_eq!(paint("x", Style::Red, true), ">\u{1b}[31mx\u{1b}[0m");
    assert_eq!(paint("x", Style::Green, true), ">\u{1b}[32mx\u{1b}[0m");
    assert_eq!(paint("x", Style::Yellow, true), ">\u{1b}[33mx\u{1b}[0m");
    assert_eq!(paint("x", Style::Blue, true), ">\u{1b}[34mx\u{1b}[0m");
    assert_eq!(paint("x", Style::Magenta, true), ">\u{1b}[35mx\u{1b}[0m");
    assert_eq!(paint("x", Style::Cyan, true), ">\u{1b}[36mx\u{1b}[0m");
    assert_eq!(paint("x", Style::BrightWhite, true), ">\u{1b}[97mx\u{1b}[0m");
    assert_eq!(paint("x", Style::Reversed, true), ">\u{1b}[7mx\u{1b}[0m");
    assert_eq!(paint("x", Style::Red, false), ">x");
}

#[test]
fn summary_line_in_colour() {
    let line = "{\"name\":\"a\",\"hostname\":\"h\",\"pid\":1,\"level\":40,\"msg\":\"hi\",\"time\":\"1970-01-01T00:00:00.000Z\",\"res\":{\"statusCode\":503}}";
    assert_eq!(
        render_line(line, 1, &LogFormat::Long, &colored(), Verdict::Keep).output,
        "\u{1b}[34m[\u{1b}[0m\u{1b}[97m1970-01-01T00:00:00.000Z\u{1b}[0m\u{1b}[34m]\u{1b}[0m  \u{1b}[35mWARN\u{1b}[0m: a/1 on h: \u{1b}[36mhi\u{1b}[0m\n    HTTP/1.1 \u{1b}[31m503\u{1b}[0m Service Unavailable\n"
    );
}

#[test]
fn status_codes_are_coloured_by_their_hundred() {
    for (code, shown) in [
        (100, "100 Continue"),
        (204, "\u{1b}[32m204\u{1b}[0m No Content"),
        (302, "\u{1b}[36m302\u{1b}[0m Found"),
        (418, "\u{1b}[33m418\u{1b}[0m I'm a teapot"),
        (500, "\u{1b}[31m500\u{1b}[0m Internal Server Error"),
        (600, "600 "),
    ] {
        let line = format!(
            "{{\"name\":\"a\",\"hostname\":\"h\",\"pid\":1,\"level\":10,\"msg\":\"\",\"time\":\"1970-01-01T00:00:00.000Z\",\"res\":{{\"statusCode\":{}}}}}",
            code
        );
        assert_eq!(
            render_line(&line, 1, &LogFormat::Long, &colored(), Verdict::Keep).output,
            format!(
                "\u{1b}[34m[\u{1b}[0m\u{1b}[97m1970-01-01T00:00:00.000Z\u{1b}[0m\u{1b}[34m]\u{1b}[0m TRACE: a/1 on h:\n    HTTP/1.1 {}\n",
                shown
            )
        );
    }
}
