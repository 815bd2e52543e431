//! The long format: one summary line for the record, then its sections,
//! with a divider line between each two that are not empty.
use vstd::prelude::*;
use crate::date_deserializer::{in_plain_years, is_offset, utc_text, zoned_text};
use crate::divider_writer::{join_sections, joined};
use crate::errors::BunyanLogParseError;
use crate::extras::{
    all_blocks, collect_all, collect_inline_pairs, inline_pairs, Class, Scope,
};
use crate::json::{get, member, plain_text, push_plain_text, JsonValue};
use crate::level::{display_text, level_of, LogLevel};
use crate::record::{BunyanLine, Record};
use crate::sections::{render_section, section_text};
use crate::style::{painted, push_painted, Style};
use crate::text::{
    decimal, has_char, indented_text, joined_with, push_decimal, push_indented, push_joined,
    texts,
};
use crate::validate::{first_violation, is_valid, validate_log_data_structure, violation_message};

verus! {

/// What is said of a record whose time `chrono` cannot hold.
pub open spec fn time_failure_message() -> Seq<char> {
    "time is out of range"@
}

/// The level on the summary line: the level of the number, as
/// `LogLevel::display` shows it.
pub open spec fn level_field(code: u16, colorize: bool) -> Seq<char> {
    display_text(level_of(code), colorize)
}

/// Who logged: name, component where there is one, process and host.
pub open spec fn identity(record: Record) -> Seq<char> {
    record.name + "/"@ + (match record.component {
        Some(component) => component + "/"@,
        None => Seq::empty(),
    }) + decimal(record.pid as nat) + " on "@ + record.hostname
}

/// The line of the source behind its file: a colon and the line, where it
/// is a string or a number.
pub open spec fn src_line(parts: Seq<(String, JsonValue)>) -> Seq<char> {
    match member(parts, "line"@) {
        Some(line) => if line is String || line is Number {
            ":"@ + plain_text(line)
        } else {
            Seq::empty()
        },
        None => Seq::empty(),
    }
}

/// The function of the source, where it is a string.
pub open spec fn src_func(parts: Seq<(String, JsonValue)>) -> Seq<char> {
    match member(parts, "func"@) {
        Some(JsonValue::String(func)) => " in "@ + func@,
        _ => Seq::empty(),
    }
}

/// Where in the source the record was written, in parentheses: the file,
/// then line and function. Nothing where no file is given as a string.
pub open spec fn src_suffix(other: Seq<(String, JsonValue)>) -> Seq<char> {
    match member(other, "src"@) {
        Some(JsonValue::String(file)) => " ("@ + file@ + ")"@,
        Some(JsonValue::Object(parts)) => match member(parts@, "file"@) {
            Some(JsonValue::String(file)) => " ("@ + file@ + src_line(parts@) + src_func(parts@)
                + ")"@,
            _ => Seq::empty(),
        },
        _ => Seq::empty(),
    }
}

/// The message on the summary line: behind a colon and a space, in cyan. A
/// message with a line break leaves the bare colon and goes to the
/// details; so does an empty one, which has no details.
pub open spec fn message_part(msg: Seq<char>, colorize: bool) -> Seq<char> {
    if msg.contains('\n') || msg.len() == 0 {
        ":"@
    } else {
        ": "@ + painted(msg, Style::Cyan, colorize)
    }
}

/// The inline members in parentheses, with commas between them. Nothing
/// where there is none.
pub open spec fn parenthetical(pairs: Seq<Seq<char>>) -> Seq<char> {
    if pairs.len() == 0 {
        Seq::empty()
    } else {
        " ("@ + joined_with(pairs, pairs.len() as int, ", "@) + ")"@
    }
}

/// The time in brackets.
pub open spec fn time_field(time_text: Seq<char>, colorize: bool) -> Seq<char> {
    painted("["@, Style::Blue, colorize) + painted(time_text, Style::BrightWhite, colorize)
        + painted("]"@, Style::Blue, colorize)
}

/// The summary line, without its line feed.
pub open spec fn summary(record: Record, time_text: Seq<char>, colorize: bool) -> Seq<char> {
    time_field(time_text, colorize) + " "@ + level_field(record.level, colorize) + ": "@
        + identity(record) + src_suffix(record.other) + message_part(record.msg, colorize)
        + parenthetical(inline_pairs(record.other))
}

/// The message as a detail block, where it has a line break.
pub open spec fn message_details(msg: Seq<char>) -> Seq<Seq<char>> {
    if msg.contains('\n') {
        seq![indented_text(msg)]
    } else {
        Seq::empty()
    }
}

/// The five sections of the reserved objects, in their order.
pub open spec fn reserved_sections(other: Seq<(String, JsonValue)>, colorize: bool) -> Seq<
    Seq<char>,
> {
    seq![
        section_text(other, Scope::Req, colorize),
        section_text(other, Scope::ClientReq, colorize),
        section_text(other, Scope::Res, colorize),
        section_text(other, Scope::ClientRes, colorize),
        section_text(other, Scope::Error, colorize),
    ]
}

/// All sections below the summary line, in their order: request, client
/// request, response, client response, error, then the nested dumps, then
/// the detail blocks, the message first.
pub open spec fn sections(record: Record, colorize: bool) -> Seq<Seq<char>> {
    reserved_sections(record.other, colorize) + all_blocks(record.other, Class::Nested)
        + message_details(record.msg) + all_blocks(record.other, Class::Multiline)
}

/// Everything below the summary line.
pub open spec fn details(record: Record, colorize: bool) -> Seq<char> {
    joined(sections(record, colorize), sections(record, colorize).len() as int)
}

/// A record in the long format: the summary line, then the sections with
/// their divider lines.
pub open spec fn rendered(record: Record, time_text: Seq<char>, colorize: bool) -> Seq<char> {
    summary(record, time_text, colorize) + "\n"@ + details(record, colorize)
}

/// How records are shown.
#[derive(Debug, Clone)]
pub struct LoggerOutputConfig {
    pub indent: usize,
    pub is_strict: bool,
    pub is_debug: bool,
    pub level: Option<u16>,
    pub display_local_time: bool,
    pub colorize: bool,
}

fn push_level_field(out: &mut String, code: u16, colorize: bool)
    ensures
        final(out)@ == old(out)@ + level_field(code, colorize),
{
    let level = LogLevel::from(code);
    let shown = level.display(colorize);
    out.append(shown.as_str());
}

fn push_identity(out: &mut String, line: &BunyanLine)
    ensures
        final(out)@ == old(out)@ + identity(line@),
{
    out.append(line.name.as_str());
    out.append("/");
    match &line.component {
        Some(component) => {
            out.append(component.as_str());
            out.append("/");
        },
        None => {},
    }
    push_decimal(out, line.pid as u64);
    out.append(" on ");
    out.append(line.hostname.as_str());
    assert(out@ =~= old(out)@ + identity(line@));
}

fn push_src_line(out: &mut String, parts: &Vec<(String, JsonValue)>)
    ensures
        final(out)@ == old(out)@ + src_line(parts@),
{
    match get(parts, "line") {
        Some(line) => {
            if line.is_string() || line.is_number() {
                out.append(":");
                push_plain_text(out, line);
                assert(out@ =~= old(out)@ + src_line(parts@));
            }
        },
        None => {},
    }
}

fn push_src_func(out: &mut String, parts: &Vec<(String, JsonValue)>)
    ensures
        final(out)@ == old(out)@ + src_func(parts@),
{
    match get(parts, "func") {
        Some(JsonValue::String(func)) => {
            out.append(" in ");
            out.append(func.as_str());
            assert(out@ =~= old(out)@ + src_func(parts@));
        },
        _ => {},
    }
}

fn push_src_suffix(out: &mut String, other: &Vec<(String, JsonValue)>)
    ensures
        final(out)@ == old(out)@ + src_suffix(other@),
{
    match get(other, "src") {
        Some(JsonValue::String(file)) => {
            out.append(" (");
            out.append(file.as_str());
            out.append(")");
            assert(out@ =~= old(out)@ + src_suffix(other@));
        },
        Some(JsonValue::Object(parts)) => match get(parts, "file") {
            Some(JsonValue::String(file)) => {
                out.append(" (");
                out.append(file.as_str());
                push_src_line(out, parts);
                push_src_func(out, parts);
                out.append(")");
                assert(out@ =~= old(out)@ + src_suffix(other@));
            },
            _ => {},
        },
        _ => {},
    }
}

fn push_message_part(out: &mut String, msg: &str, colorize: bool)
    ensures
        final(out)@ == old(out)@ + message_part(msg@, colorize),
{
    if has_char(msg, '\n') || msg.is_empty() {
        out.append(":");
    } else {
        out.append(": ");
        push_painted(out, msg, Style::Cyan, colorize);
        assert(out@ =~= old(out)@ + message_part(msg@, colorize));
    }
}

fn push_parenthetical(out: &mut String, pairs: &Vec<String>)
    ensures
        final(out)@ == old(out)@ + parenthetical(texts(pairs@)),
{
    if pairs.len() > 0 {
        out.append(" (");
        push_joined(out, pairs, ", ");
        out.append(")");
        assert(out@ =~= old(out)@ + parenthetical(texts(pairs@)));
    }
}

fn push_time_field(out: &mut String, time_text: &str, colorize: bool)
    ensures
        final(out)@ == old(out)@ + time_field(time_text@, colorize),
{
    push_painted(out, "[", Style::Blue, colorize);
    push_painted(out, time_text, Style::BrightWhite, colorize);
    push_painted(out, "]", Style::Blue, colorize);
    assert(out@ =~= old(out)@ + time_field(time_text@, colorize));
}

/// Appends the summary line, without its line feed.
pub fn push_summary(out: &mut String, line: &BunyanLine, time_text: &str, colorize: bool)
    ensures
        final(out)@ == old(out)@ + summary(line@, time_text@, colorize),
{
    let ghost time = time_field(time_text@, colorize);
    let ghost level = level_field(line@.level, colorize);
    let ghost who = identity(line@);
    let ghost src = src_suffix(line@.other);
    let ghost msg = message_part(line@.msg, colorize);
    push_time_field(out, time_text, colorize);
    out.append(" ");
    push_level_field(out, line.level, colorize);
    assert(out@ =~= old(out)@ + (time + " "@ + level));
    out.append(": ");
    push_identity(out, line);
    assert(out@ =~= old(out)@ + (time + " "@ + level + ": "@ + who));
    push_src_suffix(out, &line.other);
    assert(out@ =~= old(out)@ + (time + " "@ + level + ": "@ + who + src));
    push_message_part(out, line.msg.as_str(), colorize);
    assert(out@ =~= old(out)@ + (time + " "@ + level + ": "@ + who + src + msg));
    let pairs = collect_inline_pairs(&line.other);
    push_parenthetical(out, &pairs);
    assert(out@ =~= old(out)@ + summary(line@, time_text@, colorize));
}

/// The sections below the summary line, in their order.
pub fn collect_sections(line: &BunyanLine, colorize: bool) -> (list: Vec<String>)
    ensures
        texts(list@) == sections(line@, colorize),
{
    let mut list: Vec<String> = Vec::new();
    list.push(render_section(&line.other, Scope::Req, colorize));
    list.push(render_section(&line.other, Scope::ClientReq, colorize));
    list.push(render_section(&line.other, Scope::Res, colorize));
    list.push(render_section(&line.other, Scope::ClientRes, colorize));
    list.push(render_section(&line.other, Scope::Error, colorize));
    assert(texts(list@) =~= reserved_sections(line@.other, colorize));
    collect_all(&line.other, Class::Nested, &mut list);
    let ghost before = list@;
    if has_char(line.msg.as_str(), '\n') {
        let mut block = String::new();
        push_indented(&mut block, line.msg.as_str());
        assert(block@ =~= indented_text(line@.msg));
        list.push(block);
    }
    assert(texts(list@) =~= texts(before) + message_details(line@.msg));
    collect_all(&line.other, Class::Multiline, &mut list);
    assert(texts(list@) =~= sections(line@, colorize));
    list
}

pub trait Logger {
    /// The record in the long format, or why it cannot be shown.
    fn write_long_format(&self, output_config: &LoggerOutputConfig) -> Result<
        String,
        BunyanLogParseError,
    >;
}

impl BunyanLine {
    /// The record in the long format, with `time_text` as its time. The
    /// reserved members are not checked here.
    pub fn render(&self, time_text: &str, colorize: bool) -> (text: String)
        ensures
            text@ == rendered(self@, time_text@, colorize),
    {
        let mut text = String::new();
        push_summary(&mut text, self, time_text, colorize);
        text.append("\n");
        let list = collect_sections(self, colorize);
        let below = join_sections(&list);
        text.append(below.as_str());
        assert(text@ =~= rendered(self@, time_text@, colorize));
        text
    }
}

impl Logger for BunyanLine {
    /// Checks the reserved members, prints the time, and renders the
    /// record. A record with a violation fails with the message of the
    /// first one. A valid record whose time is shown in UTC gives exactly
    /// `rendered` with the UTC text of its time, and fails only where
    /// `chrono` cannot hold the time. Shown in local time, it gives
    /// `rendered` with the text of its time at the offset that the
    /// machine's time zone gives, which is some offset of less than a day,
    /// and fails where the time has no such text; a time outside the
    /// years 1 to 9999 has none.
    fn write_long_format(&self, output_config: &LoggerOutputConfig) -> (written: Result<
        String,
        BunyanLogParseError,
    >)
        ensures
            !is_valid(self@.other) ==> written is Err && written->Err_0@ == violation_message(
                first_violation(self@.other)->0,
            ),
            is_valid(self@.other) && !output_config.display_local_time ==> match utc_text(
                self.time.seconds,
                self.time.nanos,
            ) {
                Some(time_text) => written is Ok && written->Ok_0@ == rendered(
                    self@,
                    time_text,
                    output_config.colorize,
                ),
                None => written is Err && written->Err_0@ == time_failure_message(),
            },
            is_valid(self@.other) && output_config.display_local_time ==> match written {
                Ok(text) => exists|offset: i32|
                    is_offset(offset) && (#[trigger] zoned_text(self.time, offset)) is Some && text@
                        == rendered(
                        self@,
                        zoned_text(self.time, offset)->0,
                        output_config.colorize,
                    ),
                Err(e) => e@ == time_failure_message(),
            },
            is_valid(self@.other) && output_config.display_local_time && !in_plain_years(
                self.time.seconds,
            ) ==> written is Err,
    {
        if let Some(failure) = validate_log_data_structure(self) {
            return Err(failure);
        }
        let time_text = if output_config.display_local_time {
            self.time.to_local_text()
        } else {
            self.time.to_utc_text()
        };
        match time_text {
            Some(time_text) => Ok(self.render(time_text.as_str(), output_config.colorize)),
            None => Err(BunyanLogParseError::new("time is out of range")),
        }
    }
}

} // verus!
