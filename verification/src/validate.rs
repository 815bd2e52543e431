//! The check that a record's reserved members have the shapes that
//! rendering expects. It runs before anything is rendered, and stops at
//! the first member that is there but wrongly shaped.
use vstd::prelude::*;
use crate::errors::{BunyanLogParseError, ParseIntFromJsonError};
use crate::json::{get, member, JsonValue};
use crate::record::BunyanLine;
use crate::text::{parse_u16, parsed_u16};

verus! {

/// A reserved member that is there but wrongly shaped.
#[derive(Debug, Clone, Copy, PartialEq, Eq, Structural)]
pub enum Violation {
    /// `src` is neither a string nor an object.
    Src,
    /// `src.file` is no string.
    SrcFile,
    /// `src.line` is neither a string nor a number.
    SrcLine,
    /// `src.func` is no string.
    SrcFunc,
    /// `req_id` is neither a string, a number nor null.
    ReqId,
    /// `req.body` is an array.
    ReqBody,
    /// `client_req.body` is an array.
    ClientReqBody,
    /// `client_req.address` is neither a string, a number nor null.
    ClientReqAddress,
    /// `client_req.port` is neither a string, a number nor null.
    ClientReqPort,
    /// The headers of `res` are neither an object nor a string.
    ResHeaders,
    /// `res.statusCode` is no unsigned 16-bit number.
    ResStatusCode,
    /// The headers of `client_res` are neither an object nor a string.
    ClientResHeaders,
    /// `client_res.statusCode` is no unsigned 16-bit number.
    ClientResStatusCode,
    /// `client_res.body` is an array or an object.
    ClientResBody,
}

/// What is said of a violation.
pub open spec fn violation_message(violation: Violation) -> Seq<char> {
    match violation {
        Violation::Src => "src must be a string or an object"@,
        Violation::SrcFile => "src.file must be a string"@,
        Violation::SrcLine => "src.line must be a string or a number"@,
        Violation::SrcFunc => "src.func must be a string"@,
        Violation::ReqId => "req_id must be a string, a number or null"@,
        Violation::ReqBody => "req.body must not be an array"@,
        Violation::ClientReqBody => "client_req.body must not be an array"@,
        Violation::ClientReqAddress => "client_req.address must be a string, a number or null"@,
        Violation::ClientReqPort => "client_req.port must be a string, a number or null"@,
        Violation::ResHeaders => "res headers must be an object or a string"@,
        Violation::ResStatusCode => "res.statusCode must be an unsigned 16-bit number"@,
        Violation::ClientResHeaders => "client_res headers must be an object or a string"@,
        Violation::ClientResStatusCode => "client_res.statusCode must be an unsigned 16-bit number"@,
        Violation::ClientResBody => "client_res.body must not be an array or an object"@,
    }
}

/// The status code that a value gives: a number from 0 to 65535, or a
/// string that spells one.
pub open spec fn status_code(value: JsonValue) -> Option<u16> {
    match value {
        JsonValue::Number(n) => match n.unsigned {
            Some(u) => if u <= 65535 {
                Some(u as u16)
            } else {
                None
            },
            None => None,
        },
        JsonValue::String(s) => parsed_u16(s@),
        _ => None,
    }
}

/// A string, a number or null.
pub open spec fn is_plain_scalar(value: JsonValue) -> bool {
    value is String || value is Number || value is Null
}

/// What is wrong with `src`, if anything.
pub open spec fn src_violation(other: Seq<(String, JsonValue)>) -> Option<Violation> {
    match member(other, "src"@) {
        None => None,
        Some(JsonValue::String(_)) => None,
        Some(JsonValue::Object(parts)) => {
            let file = member(parts@, "file"@);
            let line = member(parts@, "line"@);
            let func = member(parts@, "func"@);
            if file is Some && !(file->0 is String) {
                Some(Violation::SrcFile)
            } else if line is Some && !(line->0 is String || line->0 is Number) {
                Some(Violation::SrcLine)
            } else if func is Some && !(func->0 is String) {
                Some(Violation::SrcFunc)
            } else {
                None
            }
        },
        Some(_) => Some(Violation::Src),
    }
}

/// What is wrong with `req_id`, if anything.
pub open spec fn req_id_violation(other: Seq<(String, JsonValue)>) -> Option<Violation> {
    match member(other, "req_id"@) {
        None => None,
        Some(value) => if is_plain_scalar(value) {
            None
        } else {
            Some(Violation::ReqId)
        },
    }
}

/// Whether the object under `key` has a `body` that is an array.
pub open spec fn has_array_body(other: Seq<(String, JsonValue)>, key: Seq<char>) -> bool {
    match member(other, key) {
        Some(JsonValue::Object(parts)) => match member(parts@, "body"@) {
            Some(JsonValue::Array(_)) => true,
            _ => false,
        },
        _ => false,
    }
}

/// Whether `client_req` is an object whose member `part` is there and is
/// neither a string, a number nor null.
pub open spec fn has_bad_endpoint(other: Seq<(String, JsonValue)>, part: Seq<char>) -> bool {
    match member(other, "client_req"@) {
        Some(JsonValue::Object(parts)) => match member(parts@, part) {
            Some(value) => !is_plain_scalar(value),
            None => false,
        },
        _ => false,
    }
}

/// The headers that the check looks at: `headers`, and `header` where that
/// is missing.
pub open spec fn checked_headers(parts: Seq<(String, JsonValue)>) -> Option<JsonValue> {
    match member(parts, "headers"@) {
        Some(headers) => Some(headers),
        None => member(parts, "header"@),
    }
}

/// Whether the object under `key` has headers that are neither an object
/// nor a string.
pub open spec fn has_bad_headers(other: Seq<(String, JsonValue)>, key: Seq<char>) -> bool {
    match member(other, key) {
        Some(JsonValue::Object(parts)) => match checked_headers(parts@) {
            Some(headers) => !(headers is Object || headers is String),
            None => false,
        },
        _ => false,
    }
}

/// Whether the object under `key` has a `statusCode` that gives no status
/// code.
pub open spec fn has_bad_status(other: Seq<(String, JsonValue)>, key: Seq<char>) -> bool {
    match member(other, key) {
        Some(JsonValue::Object(parts)) => match member(parts@, "statusCode"@) {
            Some(code) => status_code(code) is None,
            None => false,
        },
        _ => false,
    }
}

/// Whether `client_res` is an object whose `body` is an array or an
/// object.
pub open spec fn has_nested_body(other: Seq<(String, JsonValue)>) -> bool {
    match member(other, "client_res"@) {
        Some(JsonValue::Object(parts)) => match member(parts@, "body"@) {
            Some(body) => body is Array || body is Object,
            None => false,
        },
        _ => false,
    }
}

/// The first violation among the reserved members, in the order in which
/// `Violation` lists them; none where all are well shaped.
pub open spec fn first_violation(other: Seq<(String, JsonValue)>) -> Option<Violation> {
    if src_violation(other) is Some {
        src_violation(other)
    } else if req_id_violation(other) is Some {
        req_id_violation(other)
    } else if has_array_body(other, "req"@) {
        Some(Violation::ReqBody)
    } else if has_array_body(other, "client_req"@) {
        Some(Violation::ClientReqBody)
    } else if has_bad_endpoint(other, "address"@) {
        Some(Violation::ClientReqAddress)
    } else if has_bad_endpoint(other, "port"@) {
        Some(Violation::ClientReqPort)
    } else if has_bad_headers(other, "res"@) {
        Some(Violation::ResHeaders)
    } else if has_bad_status(other, "res"@) {
        Some(Violation::ResStatusCode)
    } else if has_bad_headers(other, "client_res"@) {
        Some(Violation::ClientResHeaders)
    } else if has_bad_status(other, "client_res"@) {
        Some(Violation::ClientResStatusCode)
    } else if has_nested_body(other) {
        Some(Violation::ClientResBody)
    } else {
        None
    }
}

/// A record is valid when none of its reserved members is wrongly shaped.
pub open spec fn is_valid(other: Seq<(String, JsonValue)>) -> bool {
    first_violation(other) is None
}

/// Reads a value as a status code: a number from 0 to 65535, or a string
/// that spells one. A string that spells none is a numeric failure and
/// carries the string; any other value is a failure of structure.
pub fn json_string_or_number_as_u16(value: &JsonValue) -> (code: Result<
    u16,
    ParseIntFromJsonError,
>)
    ensures
        match code {
            Ok(c) => status_code(*value) == Some(c),
            Err(ParseIntFromJsonError::Numeric(text)) => status_code(*value) is None && *value
                == JsonValue::String(text),
            Err(ParseIntFromJsonError::Structure(e)) => status_code(*value) is None && !(*value
                is String) && e@ == "expected a number from 0 to 65535 or a string"@,
        },
{
    match value {
        JsonValue::Number(n) => match n.unsigned {
            Some(u) => if u <= 65535 {
                Ok(u as u16)
            } else {
                Err(
                    ParseIntFromJsonError::Structure(
                        BunyanLogParseError::new("expected a number from 0 to 65535 or a string"),
                    ),
                )
            },
            None => Err(
                ParseIntFromJsonError::Structure(
                    BunyanLogParseError::new("expected a number from 0 to 65535 or a string"),
                ),
            ),
        },
        JsonValue::String(s) => match parse_u16(s.as_str()) {
            Some(c) => Ok(c),
            None => Err(ParseIntFromJsonError::Numeric(s.clone())),
        },
        _ => Err(
            ParseIntFromJsonError::Structure(
                BunyanLogParseError::new("expected a number from 0 to 65535 or a string"),
            ),
        ),
    }
}

fn plain_scalar(value: &JsonValue) -> (yes: bool)
    ensures
        yes == is_plain_scalar(*value),
{
    value.is_string() || value.is_number() || value.is_null()
}

fn check_src(other: &Vec<(String, JsonValue)>) -> (found: Option<Violation>)
    ensures
        found == src_violation(other@),
{
    match get(other, "src") {
        None => None,
        Some(JsonValue::String(_)) => None,
        Some(JsonValue::Object(parts)) => {
            let file = get(parts, "file");
            let line = get(parts, "line");
            let func = get(parts, "func");
            if file.is_some() && !file.unwrap().is_string() {
                Some(Violation::SrcFile)
            } else if line.is_some() && !(line.unwrap().is_string() || line.unwrap().is_number()) {
                Some(Violation::SrcLine)
            } else if func.is_some() && !func.unwrap().is_string() {
                Some(Violation::SrcFunc)
            } else {
                None
            }
        },
        Some(_) => Some(Violation::Src),
    }
}

fn check_req_id(other: &Vec<(String, JsonValue)>) -> (found: Option<Violation>)
    ensures
        found == req_id_violation(other@),
{
    match get(other, "req_id") {
        None => None,
        Some(value) => if plain_scalar(value) {
            None
        } else {
            Some(Violation::ReqId)
        },
    }
}

fn check_array_body(other: &Vec<(String, JsonValue)>, key: &str) -> (found: bool)
    ensures
        found == has_array_body(other@, key@),
{
    match get(other, key) {
        Some(JsonValue::Object(parts)) => match get(parts, "body") {
            Some(JsonValue::Array(_)) => true,
            _ => false,
        },
        _ => false,
    }
}

fn check_endpoint(other: &Vec<(String, JsonValue)>, part: &str) -> (found: bool)
    ensures
        found == has_bad_endpoint(other@, part@),
{
    match get(other, "client_req") {
        Some(JsonValue::Object(parts)) => match get(parts, part) {
            Some(value) => !plain_scalar(value),
            None => false,
        },
        _ => false,
    }
}

fn check_headers(other: &Vec<(String, JsonValue)>, key: &str) -> (found: bool)
    ensures
        found == has_bad_headers(other@, key@),
{
    match get(other, key) {
        Some(JsonValue::Object(parts)) => {
            let headers = match get(parts, "headers") {
                Some(headers) => Some(headers),
                None => get(parts, "header"),
            };
            match headers {
                Some(headers) => !(headers.is_object() || headers.is_string()),
                None => false,
            }
        },
        _ => false,
    }
}

fn check_status(other: &Vec<(String, JsonValue)>, key: &str) -> (found: bool)
    ensures
        found == has_bad_status(other@, key@),
{
    match get(other, key) {
        Some(JsonValue::Object(parts)) => match get(parts, "statusCode") {
            Some(code) => json_string_or_number_as_u16(code).is_err(),
            None => false,
        },
        _ => false,
    }
}

fn check_nested_body(other: &Vec<(String, JsonValue)>) -> (found: bool)
    ensures
        found == has_nested_body(other@),
{
    match get(other, "client_res") {
        Some(JsonValue::Object(parts)) => match get(parts, "body") {
            Some(body) => body.is_array() || body.is_object(),
            None => false,
        },
        _ => false,
    }
}

/// The first violation among the reserved members.
pub fn find_violation(other: &Vec<(String, JsonValue)>) -> (found: Option<Violation>)
    ensures
        found == first_violation(other@),
{
    let src = check_src(other);
    if src.is_some() {
        return src;
    }
    let req_id = check_req_id(other);
    if req_id.is_some() {
        return req_id;
    }
    if check_array_body(other, "req") {
        Some(Violation::ReqBody)
    } else if check_array_body(other, "client_req") {
        Some(Violation::ClientReqBody)
    } else if check_endpoint(other, "address") {
        Some(Violation::ClientReqAddress)
    } else if check_endpoint(other, "port") {
        Some(Violation::ClientReqPort)
    } else if check_headers(other, "res") {
        Some(Violation::ResHeaders)
    } else if check_status(other, "res") {
        Some(Violation::ResStatusCode)
    } else if check_headers(other, "client_res") {
        Some(Violation::ClientResHeaders)
    } else if check_status(other, "client_res") {
        Some(Violation::ClientResStatusCode)
    } else if check_nested_body(other) {
        Some(Violation::ClientResBody)
    } else {
        None
    }
}

/// What is said of a violation.
pub fn message_of(violation: Violation) -> (message: &'static str)
    ensures
        message@ == violation_message(violation),
{
    match violation {
        Violation::Src => "src must be a string or an object",
        Violation::SrcFile => "src.file must be a string",
        Violation::SrcLine => "src.line must be a string or a number",
        Violation::SrcFunc => "src.func must be a string",
        Violation::ReqId => "req_id must be a string, a number or null",
        Violation::ReqBody => "req.body must not be an array",
        Violation::ClientReqBody => "client_req.body must not be an array",
        Violation::ClientReqAddress => "client_req.address must be a string, a number or null",
        Violation::ClientReqPort => "client_req.port must be a string, a number or null",
        Violation::ResHeaders => "res headers must be an object or a string",
        Violation::ResStatusCode => "res.statusCode must be an unsigned 16-bit number",
        Violation::ClientResHeaders => "client_res headers must be an object or a string",
        Violation::ClientResStatusCode => "client_res.statusCode must be an unsigned 16-bit number",
        Violation::ClientResBody => "client_res.body must not be an array or an object",
    }
}

/// Checks the shapes of the reserved members of a record. Returns nothing
/// for a valid record, and for any other the failure that tells of the
/// first violation.
pub fn validate_log_data_structure(line: &BunyanLine) -> (failure: Option<BunyanLogParseError>)
    ensures
        match failure {
            None => is_valid(line@.other),
            Some(e) => first_violation(line@.other) is Some && e@ == violation_message(
                first_violation(line@.other)->0,
            ),
        },
{
    match find_violation(&line.other) {
        Some(violation) => Some(BunyanLogParseError::new(message_of(violation))),
        None => None,
    }
}

} // verus!
