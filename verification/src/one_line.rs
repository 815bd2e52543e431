//! The summary line never wraps: for a valid record whose names and
//! numbers hold no line break, the summary holds none either.
use vstd::prelude::*;
use crate::extras::{
    blocks, class_of, in_scope, inline_pair, inline_pairs, inline_value, scope_members,
    scope_prefix, Class, Scope,
};
use crate::json::{compact_items, compact_members, member, plain_text, JsonValue};
use crate::level::{level_of, painted_label, spaces};
use crate::long_format_logger::{
    identity, level_field, message_part, parenthetical, src_func, src_line, src_suffix, summary,
    time_field,
};
use crate::record::Record;
use crate::style::{painted, style_code, Style};
use crate::text::{decimal, digit_char, joined_with};
use crate::validate::{is_plain_scalar, is_valid, req_id_violation};

verus! {

/// A text without a line feed.
pub open spec fn is_one_line(text: Seq<char>) -> bool {
    !text.contains('\n')
}

/// Two texts without a line feed give one without.
pub proof fn lemma_one_line_concat(a: Seq<char>, b: Seq<char>)
    requires
        is_one_line(a),
        is_one_line(b),
    ensures
        is_one_line(a + b),
{
    if (a + b).contains('\n') {
        let i = choose|i: int| 0 <= i < (a + b).len() && (a + b)[i] == '\n';
        if i < a.len() {
            assert(a[i] == '\n');
        } else {
            assert(b[i - a.len()] == '\n');
        }
    }
}

/// A number in decimal holds no line feed.
pub proof fn lemma_decimal_is_one_line(n: nat)
    ensures
        is_one_line(decimal(n)),
    decreases n,
{
    if n >= 10 {
        lemma_decimal_is_one_line(n / 10);
        lemma_one_line_concat(decimal(n / 10), seq![digit_char(n % 10)]);
        assert(decimal(n) =~= decimal(n / 10) + seq![digit_char(n % 10)]);
    }
}

/// Spaces hold no line feed.
pub proof fn lemma_spaces_are_one_line(count: nat)
    ensures
        is_one_line(spaces(count)),
{
}

/// A style adds no line feed to a text.
pub proof fn lemma_painted_is_one_line(text: Seq<char>, style: Style, enabled: bool)
    requires
        is_one_line(text),
    ensures
        is_one_line(painted(text, style, enabled)),
{
    if enabled {
        reveal_strlit("\u{1b}[");
        reveal_strlit("m");
        reveal_strlit("\u{1b}[0m");
        reveal_strlit("31");
        reveal_strlit("32");
        reveal_strlit("33");
        reveal_strlit("34");
        reveal_strlit("35");
        reveal_strlit("36");
        reveal_strlit("97");
        reveal_strlit("7");
        let code = style_code(style);
        assert(is_one_line(code));
        lemma_one_line_concat("\u{1b}["@, code);
        lemma_one_line_concat("\u{1b}["@ + code, "m"@);
        lemma_one_line_concat("\u{1b}["@ + code + "m"@, text);
        lemma_one_line_concat("\u{1b}["@ + code + "m"@ + text, "\u{1b}[0m"@);
    }
}

/// Texts without a line feed, joined by a comma and a space, give a text
/// without.
pub proof fn lemma_joined_is_one_line(parts: Seq<Seq<char>>, upto: int)
    requires
        0 <= upto <= parts.len(),
        forall|i: int| 0 <= i < parts.len() ==> is_one_line(#[trigger] parts[i]),
    ensures
        is_one_line(joined_with(parts, upto, ", "@)),
    decreases upto,
{
    if upto > 1 {
        reveal_strlit(", ");
        lemma_joined_is_one_line(parts, upto - 1);
        lemma_one_line_concat(joined_with(parts, upto - 1, ", "@), ", "@);
        lemma_one_line_concat(joined_with(parts, upto - 1, ", "@) + ", "@, parts[upto - 1]);
    }
}

} // verus!

verus! {

/// The plain text of a string or a number holds no line feed. Of any
/// other value nothing is asked.
pub open spec fn scalar_is_one_line(value: JsonValue) -> bool {
    match value {
        JsonValue::String(s) => is_one_line(s@),
        JsonValue::Number(n) => is_one_line(n.text@),
        _ => true,
    }
}

/// What `src` puts on the summary line holds no line feed.
pub open spec fn src_is_one_line(other: Seq<(String, JsonValue)>) -> bool {
    match member(other, "src"@) {
        Some(JsonValue::String(file)) => is_one_line(file@),
        Some(JsonValue::Object(parts)) => match member(parts@, "file"@) {
            Some(JsonValue::String(file)) => is_one_line(file@) && (match member(
                parts@,
                "line"@,
            ) {
                Some(line) => scalar_is_one_line(line),
                None => true,
            }) && (match member(parts@, "func"@) {
                Some(func) => scalar_is_one_line(func),
                None => true,
            }),
            _ => true,
        },
        _ => true,
    }
}

/// The level on the summary line holds no line feed.
pub proof fn lemma_level_field_is_one_line(code: u16, colorize: bool)
    ensures
        is_one_line(level_field(code, colorize)),
{
    let level = level_of(code);
    reveal_strlit("TRACE");
    reveal_strlit("DEBUG");
    reveal_strlit("INFO");
    reveal_strlit("WARN");
    reveal_strlit("ERROR");
    reveal_strlit("FATAL");
    reveal_strlit("LVL");
    lemma_decimal_is_one_line(code as nat);
    lemma_one_line_concat("LVL"@, decimal(code as nat));
    assert(is_one_line(level.label()));
    match level.style() {
        Some(style) => lemma_painted_is_one_line(level.label(), style, colorize),
        None => {},
    }
    let width = level.label().len();
    if width < 5 {
        lemma_spaces_are_one_line((5 - width) as nat);
        lemma_one_line_concat(spaces((5 - width) as nat), painted_label(level, colorize));
    } else {
        assert(Seq::<char>::empty() + painted_label(level, colorize) =~= painted_label(
            level,
            colorize,
        ));
    }
}

/// Name, component, process and host hold no line feed where the three
/// texts hold none.
pub proof fn lemma_identity_is_one_line(record: Record)
    requires
        is_one_line(record.name),
        is_one_line(record.hostname),
        record.component is Some ==> is_one_line(record.component->0),
    ensures
        is_one_line(identity(record)),
{
    reveal_strlit("/");
    reveal_strlit(" on ");
    let part = match record.component {
        Some(component) => component + "/"@,
        None => Seq::<char>::empty(),
    };
    if record.component is Some {
        lemma_one_line_concat(record.component->0, "/"@);
    }
    lemma_decimal_is_one_line(record.pid as nat);
    lemma_one_line_concat(record.name, "/"@);
    lemma_one_line_concat(record.name + "/"@, part);
    lemma_one_line_concat(record.name + "/"@ + part, decimal(record.pid as nat));
    lemma_one_line_concat(record.name + "/"@ + part + decimal(record.pid as nat), " on "@);
    lemma_one_line_concat(
        record.name + "/"@ + part + decimal(record.pid as nat) + " on "@,
        record.hostname,
    );
}

/// The time in brackets holds no line feed where its text holds none.
pub proof fn lemma_time_field_is_one_line(time_text: Seq<char>, colorize: bool)
    requires
        is_one_line(time_text),
    ensures
        is_one_line(time_field(time_text, colorize)),
{
    reveal_strlit("[");
    reveal_strlit("]");
    lemma_painted_is_one_line("["@, Style::Blue, colorize);
    lemma_painted_is_one_line(time_text, Style::BrightWhite, colorize);
    lemma_painted_is_one_line("]"@, Style::Blue, colorize);
    lemma_one_line_concat(
        painted("["@, Style::Blue, colorize),
        painted(time_text, Style::BrightWhite, colorize),
    );
    lemma_one_line_concat(
        painted("["@, Style::Blue, colorize) + painted(time_text, Style::BrightWhite, colorize),
        painted("]"@, Style::Blue, colorize),
    );
}

/// The message on the summary line holds no line feed, whatever the
/// message: one with a line feed is not put there.
pub proof fn lemma_message_part_is_one_line(msg: Seq<char>, colorize: bool)
    ensures
        is_one_line(message_part(msg, colorize)),
{
    reveal_strlit(":");
    reveal_strlit(": ");
    if !(msg.contains('\n') || msg.len() == 0) {
        lemma_painted_is_one_line(msg, Style::Cyan, colorize);
        lemma_one_line_concat(": "@, painted(msg, Style::Cyan, colorize));
    }
}

/// The plain text of a string or number without a line feed holds none.
pub proof fn lemma_plain_scalar_is_one_line(value: JsonValue)
    requires
        value is String || value is Number,
        scalar_is_one_line(value),
    ensures
        is_one_line(plain_text(value)),
{
}

/// What `src` puts on the summary line holds no line feed.
pub proof fn lemma_src_suffix_is_one_line(other: Seq<(String, JsonValue)>)
    requires
        src_is_one_line(other),
    ensures
        is_one_line(src_suffix(other)),
{
    reveal_strlit(" (");
    reveal_strlit(")");
    reveal_strlit(":");
    reveal_strlit(" in ");
    match member(other, "src"@) {
        Some(JsonValue::String(file)) => {
            lemma_one_line_concat(" ("@, file@);
            lemma_one_line_concat(" ("@ + file@, ")"@);
        },
        Some(JsonValue::Object(parts)) => match member(parts@, "file"@) {
            Some(JsonValue::String(file)) => {
                let line = src_line(parts@);
                let func = src_func(parts@);
                match member(parts@, "line"@) {
                    Some(value) => {
                        if value is String || value is Number {
                            lemma_plain_scalar_is_one_line(value);
                            lemma_one_line_concat(":"@, plain_text(value));
                        }
                    },
                    None => {},
                }
                assert(is_one_line(line));
                match member(parts@, "func"@) {
                    Some(JsonValue::String(name)) => {
                        lemma_one_line_concat(" in "@, name@);
                    },
                    _ => {},
                }
                assert(is_one_line(func));
                lemma_one_line_concat(" ("@, file@);
                lemma_one_line_concat(" ("@ + file@, line);
                lemma_one_line_concat(" ("@ + file@ + line, func);
                lemma_one_line_concat(" ("@ + file@ + line + func, ")"@);
            },
            _ => {},
        },
        _ => {},
    }
}

} // verus!

verus! {

/// The inline members of a scope have keys without a line feed, and
/// numbers whose text has none.
pub open spec fn members_are_one_line(members: Seq<(String, JsonValue)>, scope: Scope) -> bool {
    forall|i: int|
        0 <= i < members.len() && in_scope(scope, (#[trigger] members[i]).0@, members[i].1)
            && class_of(members[i].1) == Class::Inline ==> is_one_line(members[i].0@)
            && scalar_is_one_line(members[i].1)
}

/// The texts that a record puts on its summary line hold no line feed:
/// the time, name, component and host, what `src` and `req_id` give, and
/// the keys and numbers of the inline members.
pub open spec fn is_one_line_record(record: Record, time_text: Seq<char>) -> bool {
    &&& is_one_line(time_text)
    &&& is_one_line(record.name)
    &&& is_one_line(record.hostname)
    &&& (record.component is Some ==> is_one_line(record.component->0))
    &&& src_is_one_line(record.other)
    &&& (member(record.other, "req_id"@) is Some ==> scalar_is_one_line(
        member(record.other, "req_id"@)->0,
    ))
    &&& members_are_one_line(scope_members(record.other, Scope::General), Scope::General)
    &&& members_are_one_line(scope_members(record.other, Scope::Req), Scope::Req)
    &&& members_are_one_line(scope_members(record.other, Scope::ClientReq), Scope::ClientReq)
    &&& members_are_one_line(scope_members(record.other, Scope::Res), Scope::Res)
    &&& members_are_one_line(scope_members(record.other, Scope::ClientRes), Scope::ClientRes)
    &&& members_are_one_line(scope_members(record.other, Scope::Error), Scope::Error)
}

/// A value that is inline, or a plain scalar, is written without a line
/// feed where its own text holds none.
pub proof fn lemma_inline_value_is_one_line(value: JsonValue)
    requires
        class_of(value) == Class::Inline || is_plain_scalar(value),
        scalar_is_one_line(value),
    ensures
        is_one_line(inline_value(value)),
{
    reveal_strlit("\"");
    reveal_strlit("null");
    reveal_strlit("true");
    reveal_strlit("false");
    reveal_strlit("[");
    reveal_strlit("]");
    reveal_strlit("{");
    reveal_strlit("}");
    match value {
        JsonValue::String(s) => {
            lemma_one_line_concat("\""@, s@);
            lemma_one_line_concat("\""@ + s@, "\""@);
        },
        JsonValue::Array(items) => {
            assert(compact_items(items@, 0) =~= Seq::<char>::empty());
            lemma_one_line_concat("["@, compact_items(items@, 0));
            lemma_one_line_concat("["@ + compact_items(items@, 0), "]"@);
        },
        JsonValue::Object(members) => {
            assert(compact_members(members@, 0) =~= Seq::<char>::empty());
            lemma_one_line_concat("{"@, compact_members(members@, 0));
            lemma_one_line_concat("{"@ + compact_members(members@, 0), "}"@);
        },
        _ => {},
    }
}

/// What stands before a key holds no line feed.
pub proof fn lemma_scope_prefix_is_one_line(scope: Scope)
    ensures
        is_one_line(scope_prefix(scope)),
{
    reveal_strlit("req.");
    reveal_strlit("client_req.");
    reveal_strlit("res.");
    reveal_strlit("client_res.");
    reveal_strlit("err.");
}

/// The inline members of a scope are each written without a line feed.
pub proof fn lemma_inline_blocks_are_one_line(
    members: Seq<(String, JsonValue)>,
    upto: int,
    scope: Scope,
)
    requires
        0 <= upto <= members.len(),
        members_are_one_line(members, scope),
    ensures
        forall|j: int|
            0 <= j < blocks(members, upto, scope, Class::Inline).len() ==> is_one_line(
                #[trigger] blocks(members, upto, scope, Class::Inline)[j],
            ),
    decreases upto,
{
    if upto > 0 {
        lemma_inline_blocks_are_one_line(members, upto - 1, scope);
        let key = members[upto - 1].0@;
        let value = members[upto - 1].1;
        if in_scope(scope, key, value) && class_of(value) == Class::Inline {
            reveal_strlit("=");
            lemma_scope_prefix_is_one_line(scope);
            lemma_inline_value_is_one_line(value);
            lemma_one_line_concat(scope_prefix(scope), key);
            lemma_one_line_concat(scope_prefix(scope) + key, "="@);
            lemma_one_line_concat(scope_prefix(scope) + key + "="@, inline_value(value));
            assert(is_one_line(inline_pair(scope, key, value)));
        }
        let before = blocks(members, upto - 1, scope, Class::Inline);
        let now = blocks(members, upto, scope, Class::Inline);
        assert forall|j: int| 0 <= j < now.len() implies is_one_line(#[trigger] now[j]) by {
            if j < before.len() {
                assert(now[j] == before[j]);
            } else {
                assert(now[j] == inline_pair(scope, key, value));
            }
        }
    }
}

/// All that stands in the parentheses of the summary line is written
/// without a line feed.
pub proof fn lemma_inline_pairs_are_one_line(record: Record, time_text: Seq<char>)
    requires
        is_valid(record.other),
        is_one_line_record(record, time_text),
    ensures
        forall|j: int|
            0 <= j < inline_pairs(record.other).len() ==> is_one_line(
                #[trigger] inline_pairs(record.other)[j],
            ),
{
    let other = record.other;
    let general = scope_members(other, Scope::General);
    let req = scope_members(other, Scope::Req);
    let client_req = scope_members(other, Scope::ClientReq);
    let res = scope_members(other, Scope::Res);
    let client_res = scope_members(other, Scope::ClientRes);
    let error = scope_members(other, Scope::Error);
    lemma_inline_blocks_are_one_line(general, general.len() as int, Scope::General);
    lemma_inline_blocks_are_one_line(req, req.len() as int, Scope::Req);
    lemma_inline_blocks_are_one_line(client_req, client_req.len() as int, Scope::ClientReq);
    lemma_inline_blocks_are_one_line(res, res.len() as int, Scope::Res);
    lemma_inline_blocks_are_one_line(client_res, client_res.len() as int, Scope::ClientRes);
    lemma_inline_blocks_are_one_line(error, error.len() as int, Scope::Error);
    match member(other, "req_id"@) {
        Some(value) => {
            reveal_strlit("req_id=");
            assert(req_id_violation(other) is None);
            lemma_inline_value_is_one_line(value);
            lemma_one_line_concat("req_id="@, inline_value(value));
        },
        None => {},
    }
}

/// For a valid record whose names and numbers hold no line feed, the
/// summary holds none: the record has exactly one summary line, and the
/// line feed that `rendered` puts behind it is its end.
pub proof fn lemma_summary_is_one_line(record: Record, time_text: Seq<char>, colorize: bool)
    requires
        is_valid(record.other),
        is_one_line_record(record, time_text),
    ensures
        is_one_line(summary(record, time_text, colorize)),
{
    reveal_strlit(" ");
    reveal_strlit(": ");
    reveal_strlit(" (");
    reveal_strlit(")");
    let time = time_field(time_text, colorize);
    let level = level_field(record.level, colorize);
    let who = identity(record);
    let src = src_suffix(record.other);
    let msg = message_part(record.msg, colorize);
    let pairs = inline_pairs(record.other);
    lemma_time_field_is_one_line(time_text, colorize);
    lemma_level_field_is_one_line(record.level, colorize);
    lemma_identity_is_one_line(record);
    lemma_src_suffix_is_one_line(record.other);
    lemma_message_part_is_one_line(record.msg, colorize);
    lemma_inline_pairs_are_one_line(record, time_text);
    if pairs.len() > 0 {
        lemma_joined_is_one_line(pairs, pairs.len() as int);
        lemma_one_line_concat(" ("@, joined_with(pairs, pairs.len() as int, ", "@));
        lemma_one_line_concat(" ("@ + joined_with(pairs, pairs.len() as int, ", "@), ")"@);
    }
    assert(is_one_line(parenthetical(pairs)));
    lemma_one_line_concat(time, " "@);
    lemma_one_line_concat(time + " "@, level);
    lemma_one_line_concat(time + " "@ + level, ": "@);
    lemma_one_line_concat(time + " "@ + level + ": "@, who);
    lemma_one_line_concat(time + " "@ + level + ": "@ + who, src);
    lemma_one_line_concat(time + " "@ + level + ": "@ + who + src, msg);
    lemma_one_line_concat(time + " "@ + level + ": "@ + who + src + msg, parenthetical(pairs));
}

} // verus!
