//! The renderers of the reserved objects: a request, a response, an error.
//! Each gives the text of its section, which is empty where the record has
//! no such object.
use vstd::prelude::*;
use crate::extras::{key_of_scope, scope_key, Scope};
use crate::json::{
    get, member, plain_text, plain_text_of, pretty, push_plain_text, push_pretty, JsonValue,
};
use crate::style::{painted, push_painted, Style};
use crate::text::{
    decimal, has_prefix, indent, indented_nonblank_text, indented_nonempty_text, indented_text,
    push_decimal, push_indented, push_indented_nonblank, push_indented_nonempty, starts_with,
};
use crate::validate::{json_string_or_number_as_u16, status_code};

verus! {

/// The reason phrase that `httpstatus` has for a status code; the empty
/// text for a code that it does not know.
pub uninterp spec fn reason_phrase_of(code: u16) -> Seq<char>;

/// `httpstatus::StatusCode::from`, then `StatusCode::reason_phrase`. A
/// function of the code alone.
#[verifier::external_body]
fn reason_phrase(code: u16) -> (phrase: String)
    ensures
        phrase@ == reason_phrase_of(code),
{
    httpstatus::StatusCode::from(code).reason_phrase().to_owned()
}

/// A word of the request line: the value as plain text, `undefined` where
/// it is missing.
pub open spec fn word(value: Option<JsonValue>) -> Seq<char> {
    match value {
        Some(v) => plain_text(v),
        None => "undefined"@,
    }
}

/// The HTTP version of a request: the string that is given, `1.1` where
/// none is.
pub open spec fn request_version(value: Option<JsonValue>) -> Seq<char> {
    match value {
        Some(JsonValue::String(s)) => s@,
        _ => "1.1"@,
    }
}

/// The first line of a request: method, URL and version.
pub open spec fn request_line(parts: Seq<(String, JsonValue)>) -> Seq<char> {
    indent() + word(member(parts, "method"@)) + " "@ + word(member(parts, "url"@)) + " HTTP/"@
        + request_version(member(parts, "httpVersion"@)) + "\n"@
}

/// The port behind the address: a colon and the port, where it is a string
/// or a number.
pub open spec fn port_suffix(parts: Seq<(String, JsonValue)>) -> Seq<char> {
    match member(parts, "port"@) {
        Some(port) => if port is String || port is Number {
            ":"@ + plain_text(port)
        } else {
            Seq::empty()
        },
        None => Seq::empty(),
    }
}

/// The line that names the host of a client request, where it has an
/// address.
pub open spec fn connecting_host(parts: Seq<(String, JsonValue)>) -> Seq<char> {
    match member(parts, "address"@) {
        Some(address) => indent() + "Connecting Host: "@ + plain_text(address) + port_suffix(
            parts,
        ) + "\n"@,
        None => Seq::empty(),
    }
}

/// The first `upto` headers of an object, each as `key: value`. The lines
/// of a value that has several are all indented.
pub open spec fn header_lines(headers: Seq<(String, JsonValue)>, upto: int) -> Seq<char>
    decreases upto,
{
    if upto <= 0 || upto > headers.len() {
        Seq::empty()
    } else {
        header_lines(headers, upto - 1) + indented_text(
            headers[upto - 1].0@ + ": "@ + plain_text(headers[upto - 1].1),
        )
    }
}

/// Headers or trailers: of an object the members, of a string its lines,
/// of anything else nothing. Of the lines of a string, a request leaves
/// out the blank ones and a response the empty ones.
pub open spec fn header_block(value: Option<JsonValue>, response: bool) -> Seq<char> {
    match value {
        Some(JsonValue::Object(headers)) => header_lines(headers@, headers@.len() as int),
        Some(JsonValue::String(s)) => if response {
            indented_nonempty_text(s@)
        } else {
            indented_nonblank_text(s@)
        },
        _ => Seq::empty(),
    }
}

/// A body: an object or array as indented JSON, anything else as the lines
/// of its plain text.
pub open spec fn body_text(value: JsonValue) -> Seq<char> {
    match value {
        JsonValue::Object(_) => indent() + pretty(value, indent()) + "\n"@,
        JsonValue::Array(_) => indent() + pretty(value, indent()) + "\n"@,
        _ => indented_text(plain_text(value)),
    }
}

/// The body of a request.
pub open spec fn request_body(value: Option<JsonValue>) -> Seq<char> {
    match value {
        Some(body) => body_text(body),
        None => Seq::empty(),
    }
}

/// The section of a request: the request line, for a client request the
/// connecting host, then `header`, `headers`, `body` and `trailers`.
pub open spec fn request_section(parts: Seq<(String, JsonValue)>, client: bool) -> Seq<char> {
    request_line(parts) + (if client {
        connecting_host(parts)
    } else {
        Seq::empty()
    }) + header_block(member(parts, "header"@), false) + header_block(
        member(parts, "headers"@),
        false,
    ) + request_body(member(parts, "body"@)) + header_block(member(parts, "trailers"@), false)
}

/// The headers of a response: `header`, and `headers` where that is
/// missing.
pub open spec fn response_headers(parts: Seq<(String, JsonValue)>) -> Option<JsonValue> {
    match member(parts, "header"@) {
        Some(header) => Some(header),
        None => member(parts, "headers"@),
    }
}

/// The HTTP version of a response: the three characters behind `HTTP/`
/// where the headers are a string that begins so, and `1.1` otherwise.
pub open spec fn response_version(headers: Option<JsonValue>) -> Seq<char> {
    match headers {
        Some(JsonValue::String(s)) => if has_prefix(s@, "HTTP/"@) && s@.len() >= 8 {
            s@.subrange(5, 8)
        } else {
            "1.1"@
        },
        _ => "1.1"@,
    }
}

/// The style of a status code, by its hundred.
pub open spec fn status_style(code: u16) -> Option<Style> {
    if 200 <= code < 300 {
        Some(Style::Green)
    } else if 300 <= code < 400 {
        Some(Style::Cyan)
    } else if 400 <= code < 500 {
        Some(Style::Yellow)
    } else if 500 <= code < 600 {
        Some(Style::Red)
    } else {
        None
    }
}

/// A status code in its style.
pub open spec fn painted_code(code: u16, colorize: bool) -> Seq<char> {
    match status_style(code) {
        Some(style) => painted(decimal(code as nat), style, colorize),
        None => decimal(code as nat),
    }
}

/// The status line of a response, where it has a status code.
pub open spec fn status_line(parts: Seq<(String, JsonValue)>, colorize: bool) -> Seq<char> {
    match member(parts, "statusCode"@) {
        Some(value) => match status_code(value) {
            Some(code) => indent() + "HTTP/"@ + response_version(response_headers(parts)) + " "@
                + painted_code(code, colorize) + " "@ + reason_phrase_of(code) + "\n"@,
            None => Seq::empty(),
        },
        None => Seq::empty(),
    }
}

/// The body of a response: after an empty line, where it has any text.
pub open spec fn response_body(value: Option<JsonValue>) -> Seq<char> {
    match value {
        Some(body) => if body_text(body).len() > 0 {
            "\n"@ + body_text(body)
        } else {
            Seq::empty()
        },
        None => Seq::empty(),
    }
}

/// The section of a response: status line, headers, body.
pub open spec fn response_section(parts: Seq<(String, JsonValue)>, colorize: bool) -> Seq<char> {
    status_line(parts, colorize) + header_block(response_headers(parts), true) + response_body(
        member(parts, "body"@),
    )
}

/// The first `upto` items of a stack, each as the lines of its plain text.
pub open spec fn stack_lines(items: Seq<JsonValue>, upto: int) -> Seq<char>
    decreases upto,
{
    if upto <= 0 || upto > items.len() {
        Seq::empty()
    } else {
        stack_lines(items, upto - 1) + indented_text(plain_text(items[upto - 1]))
    }
}

/// The section of an error: its stack, of a string the lines, of an array
/// the items, of anything else the indented JSON.
pub open spec fn error_section(parts: Seq<(String, JsonValue)>) -> Seq<char> {
    match member(parts, "stack"@) {
        None => Seq::empty(),
        Some(JsonValue::String(s)) => indented_text(s@),
        Some(JsonValue::Array(items)) => stack_lines(items@, items@.len() as int),
        Some(stack) => indent() + pretty(stack, indent()) + "\n"@,
    }
}

/// The section of a scope: that of its reserved object where the record
/// has it as an object, and nothing otherwise.
pub open spec fn section_text(other: Seq<(String, JsonValue)>, scope: Scope, colorize: bool)
    -> Seq<char> {
    match member(other, scope_key(scope)) {
        Some(JsonValue::Object(parts)) => match scope {
            Scope::General => Seq::empty(),
            Scope::Req => request_section(parts@, false),
            Scope::ClientReq => request_section(parts@, true),
            Scope::Res => response_section(parts@, colorize),
            Scope::ClientRes => response_section(parts@, colorize),
            Scope::Error => error_section(parts@),
        },
        _ => Seq::empty(),
    }
}

fn push_word(out: &mut String, value: Option<&JsonValue>)
    ensures
        final(out)@ == old(out)@ + word(
            match value {
                Some(v) => Some(*v),
                None => None,
            },
        ),
{
    match value {
        Some(v) => push_plain_text(out, v),
        None => out.append("undefined"),
    }
}

fn push_request_line(out: &mut String, parts: &Vec<(String, JsonValue)>)
    ensures
        final(out)@ == old(out)@ + request_line(parts@),
{
    out.append("    ");
    push_word(out, get(parts, "method"));
    out.append(" ");
    push_word(out, get(parts, "url"));
    out.append(" HTTP/");
    match get(parts, "httpVersion") {
        Some(JsonValue::String(s)) => out.append(s.as_str()),
        _ => out.append("1.1"),
    }
    out.append("\n");
    assert(out@ =~= old(out)@ + request_line(parts@));
}

fn push_port_suffix(out: &mut String, parts: &Vec<(String, JsonValue)>)
    ensures
        final(out)@ == old(out)@ + port_suffix(parts@),
{
    match get(parts, "port") {
        Some(port) => {
            if port.is_string() || port.is_number() {
                out.append(":");
                push_plain_text(out, port);
                assert(out@ =~= old(out)@ + port_suffix(parts@));
            }
        },
        None => {},
    }
}

fn push_connecting_host(out: &mut String, parts: &Vec<(String, JsonValue)>)
    ensures
        final(out)@ == old(out)@ + connecting_host(parts@),
{
    match get(parts, "address") {
        Some(address) => {
            out.append("    ");
            out.append("Connecting Host: ");
            push_plain_text(out, address);
            push_port_suffix(out, parts);
            out.append("\n");
            assert(out@ =~= old(out)@ + connecting_host(parts@));
        },
        None => {},
    }
}

fn push_header_block(out: &mut String, value: Option<&JsonValue>, response: bool)
    ensures
        final(out)@ == old(out)@ + header_block(
            match value {
                Some(v) => Some(*v),
                None => None,
            },
            response,
        ),
{
    match value {
        Some(JsonValue::Object(headers)) => {
            let mut i: usize = 0;
            while i < headers.len()
                invariant
                    i <= headers.len(),
                    out@ == old(out)@ + header_lines(headers@, i as int),
                decreases headers.len() - i,
            {
                let mut line = String::from_str(headers[i].0.as_str());
                line.append(": ");
                push_plain_text(&mut line, &headers[i].1);
                push_indented(out, line.as_str());
                assert(out@ =~= old(out)@ + header_lines(headers@, i + 1));
                i += 1;
            }
        },
        Some(JsonValue::String(s)) => {
            if response {
                push_indented_nonempty(out, s.as_str());
            } else {
                push_indented_nonblank(out, s.as_str());
            }
        },
        _ => {},
    }
}

fn push_body_text(out: &mut String, value: &JsonValue)
    ensures
        final(out)@ == old(out)@ + body_text(*value),
{
    match value {
        JsonValue::Object(_) => {
            out.append("    ");
            push_pretty(out, value, "    ");
            out.append("\n");
            assert(out@ =~= old(out)@ + body_text(*value));
        },
        JsonValue::Array(_) => {
            out.append("    ");
            push_pretty(out, value, "    ");
            out.append("\n");
            assert(out@ =~= old(out)@ + body_text(*value));
        },
        _ => {
            let text = plain_text_of(value);
            push_indented(out, text.as_str());
        },
    }
}

/// Appends the section of a request.
pub fn push_request_section(out: &mut String, parts: &Vec<(String, JsonValue)>, client: bool)
    ensures
        final(out)@ == old(out)@ + request_section(parts@, client),
{
    let ghost line = request_line(parts@);
    let ghost host = if client {
        connecting_host(parts@)
    } else {
        Seq::<char>::empty()
    };
    let ghost header = header_block(member(parts@, "header"@), false);
    let ghost headers = header_block(member(parts@, "headers"@), false);
    let ghost body = request_body(member(parts@, "body"@));
    let ghost trailers = header_block(member(parts@, "trailers"@), false);
    push_request_line(out, parts);
    if client {
        push_connecting_host(out, parts);
    }
    assert(out@ =~= old(out)@ + (line + host));
    push_header_block(out, get(parts, "header"), false);
    assert(out@ =~= old(out)@ + (line + host + header));
    push_header_block(out, get(parts, "headers"), false);
    assert(out@ =~= old(out)@ + (line + host + header + headers));
    match get(parts, "body") {
        Some(body) => push_body_text(out, body),
        None => {},
    }
    assert(out@ =~= old(out)@ + (line + host + header + headers + body));
    push_header_block(out, get(parts, "trailers"), false);
    assert(out@ =~= old(out)@ + (line + host + header + headers + body + trailers));
}

fn find_response_headers(parts: &Vec<(String, JsonValue)>) -> (found: Option<&JsonValue>)
    ensures
        match found {
            Some(value) => response_headers(parts@) == Some(*value),
            None => response_headers(parts@) is None,
        },
{
    match get(parts, "header") {
        Some(header) => Some(header),
        None => get(parts, "headers"),
    }
}

fn push_response_version(out: &mut String, headers: Option<&JsonValue>)
    ensures
        final(out)@ == old(out)@ + response_version(
            match headers {
                Some(v) => Some(*v),
                None => None,
            },
        ),
{
    match headers {
        Some(JsonValue::String(s)) => {
            if starts_with(s.as_str(), "HTTP/") && s.as_str().unicode_len() >= 8 {
                out.append(s.as_str().substring_char(5, 8));
            } else {
                out.append("1.1");
            }
        },
        _ => {
            out.append("1.1");
        },
    }
}

/// The style of a status code.
pub fn style_of_status(code: u16) -> (style: Option<Style>)
    ensures
        style == status_style(code),
{
    if 200 <= code && code < 300 {
        Some(Style::Green)
    } else if 300 <= code && code < 400 {
        Some(Style::Cyan)
    } else if 400 <= code && code < 500 {
        Some(Style::Yellow)
    } else if 500 <= code && code < 600 {
        Some(Style::Red)
    } else {
        None
    }
}

fn push_painted_code(out: &mut String, code: u16, colorize: bool)
    ensures
        final(out)@ == old(out)@ + painted_code(code, colorize),
{
    let mut digits = String::new();
    push_decimal(&mut digits, code as u64);
    assert(digits@ =~= decimal(code as nat));
    match style_of_status(code) {
        Some(style) => push_painted(out, digits.as_str(), style, colorize),
        None => out.append(digits.as_str()),
    }
}

fn push_status_line(out: &mut String, parts: &Vec<(String, JsonValue)>, colorize: bool)
    ensures
        final(out)@ == old(out)@ + status_line(parts@, colorize),
{
    match get(parts, "statusCode") {
        Some(value) => match json_string_or_number_as_u16(value) {
            Ok(code) => {
                out.append("    ");
                out.append("HTTP/");
                push_response_version(out, find_response_headers(parts));
                out.append(" ");
                push_painted_code(out, code, colorize);
                out.append(" ");
                let phrase = reason_phrase(code);
                out.append(phrase.as_str());
                out.append("\n");
                assert(out@ =~= old(out)@ + status_line(parts@, colorize));
            },
            Err(_) => {},
        },
        None => {},
    }
}

fn push_response_body(out: &mut String, value: Option<&JsonValue>)
    ensures
        final(out)@ == old(out)@ + response_body(
            match value {
                Some(v) => Some(*v),
                None => None,
            },
        ),
{
    match value {
        Some(body) => {
            let mut text = String::new();
            push_body_text(&mut text, body);
            assert(text@ =~= body_text(*body));
            if !text.as_str().is_empty() {
                out.append("\n");
                out.append(text.as_str());
                assert(out@ =~= old(out)@ + response_body(Some(*body)));
            }
        },
        None => {},
    }
}

/// Appends the section of a response.
pub fn push_response_section(out: &mut String, parts: &Vec<(String, JsonValue)>, colorize: bool)
    ensures
        final(out)@ == old(out)@ + response_section(parts@, colorize),
{
    push_status_line(out, parts, colorize);
    push_header_block(out, find_response_headers(parts), true);
    push_response_body(out, get(parts, "body"));
    assert(out@ =~= old(out)@ + response_section(parts@, colorize));
}

/// Appends the section of an error.
pub fn push_error_section(out: &mut String, parts: &Vec<(String, JsonValue)>)
    ensures
        final(out)@ == old(out)@ + error_section(parts@),
{
    match get(parts, "stack") {
        None => {},
        Some(JsonValue::String(s)) => {
            push_indented(out, s.as_str());
        },
        Some(JsonValue::Array(items)) => {
            let mut i: usize = 0;
            while i < items.len()
                invariant
                    i <= items.len(),
                    out@ == old(out)@ + stack_lines(items@, i as int),
                decreases items.len() - i,
            {
                let text = plain_text_of(&items[i]);
                push_indented(out, text.as_str());
                assert(out@ =~= old(out)@ + stack_lines(items@, i + 1));
                i += 1;
            }
        },
        Some(stack) => {
            out.append("    ");
            push_pretty(out, stack, "    ");
            out.append("\n");
            assert(out@ =~= old(out)@ + error_section(parts@));
        },
    }
}

/// The section of a scope.
pub fn render_section(other: &Vec<(String, JsonValue)>, scope: Scope, colorize: bool) -> (text:
    String)
    ensures
        text@ == section_text(other@, scope, colorize),
{
    let mut text = String::new();
    match get(other, key_of_scope(scope)) {
        Some(JsonValue::Object(parts)) => {
            match scope {
                Scope::General => {},
                Scope::Req => push_request_section(&mut text, parts, false),
                Scope::ClientReq => push_request_section(&mut text, parts, true),
                Scope::Res => push_response_section(&mut text, parts, colorize),
                Scope::ClientRes => push_response_section(&mut text, parts, colorize),
                Scope::Error => push_error_section(&mut text, parts),
            }
            assert(text@ =~= section_text(other@, scope, colorize));
        },
        _ => {},
    }
    text
}

} // verus!
