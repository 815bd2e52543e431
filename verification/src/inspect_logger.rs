//! The inspect format: a line as a JavaScript object literal, strings in
//! single quotes, long strings cut at their line breaks.
use vstd::prelude::*;
use crate::json::{bool_text, json_parse, parse_json, push_bool, JsonValue};
use crate::style::{painted, push_painted, Style};
use crate::text::{chars_of, is_space_char, space_char};

verus! {

/// The longest string that is written on one line, in bytes of UTF-8.
pub const LONG_STRING_SIZE: usize = 80;

/// A character as the inspect format writes it: backspace, form feed,
/// carriage return and tab by their escapes, any other as it is.
pub open spec fn escaped_char(c: char) -> Seq<char> {
    if c == '\u{8}' {
        "\\b"@
    } else if c == '\u{c}' {
        "\\f"@
    } else if c == '\r' {
        "\\r"@
    } else if c == '\t' {
        "\\t"@
    } else {
        seq![c]
    }
}

/// The first `upto` characters of a text, each as `escaped_char` writes
/// it.
pub open spec fn escaped(text: Seq<char>, upto: int) -> Seq<char>
    decreases upto,
{
    if upto <= 0 || upto > text.len() {
        Seq::empty()
    } else {
        escaped(text, upto - 1) + escaped_char(text[upto - 1])
    }
}

/// The first `upto` characters of a text, with `break_text` in place of
/// every line feed.
pub open spec fn with_breaks(text: Seq<char>, upto: int, break_text: Seq<char>) -> Seq<char>
    decreases upto,
{
    if upto <= 0 || upto > text.len() {
        Seq::empty()
    } else if text[upto - 1] == '\n' {
        with_breaks(text, upto - 1, break_text) + break_text
    } else {
        with_breaks(text, upto - 1, break_text).push(text[upto - 1])
    }
}

/// How much of a text is left when the blank space at its end is taken
/// away.
pub open spec fn trimmed_len(text: Seq<char>, upto: int) -> int
    decreases upto,
{
    if upto <= 0 || upto > text.len() {
        0
    } else if is_space_char(text[upto - 1]) {
        trimmed_len(text, upto - 1)
    } else {
        upto
    }
}

/// A string of at most 80 bytes: escaped, each line feed as `\n`.
pub open spec fn short_string(text: Seq<char>) -> Seq<char> {
    let plain = escaped(text, text.len() as int);
    with_breaks(plain, plain.len() as int, "\\n"@)
}

/// What stands in place of a line feed inside a long string: the escape,
/// the end of the piece, a plus sign, and the start of the next piece on
/// a line of its own, indented by `pad`.
pub open spec fn piece_break(pad: Seq<char>) -> Seq<char> {
    "\\n' +\n"@ + pad + "'"@
}

/// A string of more than 80 bytes: escaped, and cut into pieces at
/// its line feeds. Where it ends in a line feed, the blank space at its
/// end is dropped and the text closes with `\n`.
pub open spec fn long_string(text: Seq<char>, pad: Seq<char>) -> Seq<char> {
    let plain = escaped(text, text.len() as int);
    if text.len() > 0 && text.last() == '\n' {
        let kept = plain.subrange(0, trimmed_len(plain, plain.len() as int));
        with_breaks(kept, kept.len() as int, piece_break(pad)) + "\\n"@
    } else {
        with_breaks(plain, plain.len() as int, piece_break(pad))
    }
}

/// A string between single quotes, in green.
pub open spec fn inspect_string(text: Seq<char>, pad: Seq<char>, colorize: bool) -> Seq<char> {
    let line = if vstd::utf8::encode_utf8(text).len() > LONG_STRING_SIZE {
        long_string(text, pad)
    } else {
        short_string(text)
    };
    painted("'"@, Style::Green, colorize) + painted(line, Style::Green, colorize) + painted(
        "'"@,
        Style::Green,
        colorize,
    )
}

/// A value in the inspect format. `pad` is the indentation of the members
/// of the value where it is an object, `close` that of its closing brace.
pub open spec fn inspect_value(value: JsonValue, pad: Seq<char>, close: Seq<char>, colorize: bool)
    -> Seq<char>
    decreases value, 0nat,
{
    match value {
        JsonValue::String(s) => inspect_string(s@, pad, colorize),
        JsonValue::Number(n) => painted(n.text@, Style::Yellow, colorize),
        JsonValue::Array(items) => painted("["@, Style::BrightWhite, colorize) + (if items@.len()
            > 0 {
            " "@
        } else {
            Seq::empty()
        }) + inspect_items(items@, items@.len() as int, pad, colorize) + painted(
            "]"@,
            Style::BrightWhite,
            colorize,
        ),
        JsonValue::Object(members) => if members@.len() == 0 {
            painted("{"@, Style::BrightWhite, colorize) + painted(
                "}"@,
                Style::BrightWhite,
                colorize,
            )
        } else {
            painted("{"@, Style::BrightWhite, colorize) + "\n"@ + inspect_members(
                members@,
                members@.len() as int,
                pad,
                colorize,
            ) + "\n"@ + close + painted("}"@, Style::BrightWhite, colorize)
        },
        JsonValue::Null => painted(Seq::empty(), Style::Green, colorize) + "null"@,
        JsonValue::Bool(b) => painted(Seq::empty(), Style::Green, colorize) + bool_text(b),
    }
}

/// An item of an array: the value, then a comma and a space, or a space
/// alone behind the last item.
pub open spec fn inspect_item(value: JsonValue, pad: Seq<char>, last: bool, colorize: bool) -> Seq<
    char,
>
    decreases value, 1nat,
{
    inspect_value(value, pad + "  "@, pad, colorize) + (if last {
        " "@
    } else {
        ", "@
    })
}

/// The first `upto` items of an array.
pub open spec fn inspect_items(items: Seq<JsonValue>, upto: int, pad: Seq<char>, colorize: bool)
    -> Seq<char>
    decreases items, upto,
{
    if upto <= 0 || upto > items.len() {
        Seq::empty()
    } else {
        inspect_items(items, upto - 1, pad, colorize) + inspect_item(
            items[upto - 1],
            pad,
            upto == items.len(),
            colorize,
        )
    }
}

/// A member of an object: the key, a colon, the value, and a comma and a
/// line feed behind every member but the last.
pub open spec fn inspect_member(
    key: Seq<char>,
    value: JsonValue,
    pad: Seq<char>,
    last: bool,
    colorize: bool,
) -> Seq<char>
    decreases value, 1nat,
{
    pad + painted(key, Style::BrightWhite, colorize) + ": "@ + inspect_value(
        value,
        pad + "  "@,
        pad,
        colorize,
    ) + (if last {
        Seq::empty()
    } else {
        painted(","@, Style::BrightWhite, colorize) + "\n"@
    })
}

/// The first `upto` members of an object, each on a line of its own,
/// indented by `pad`.
pub open spec fn inspect_members(
    members: Seq<(String, JsonValue)>,
    upto: int,
    pad: Seq<char>,
    colorize: bool,
) -> Seq<char>
    decreases members, upto,
{
    if upto <= 0 || upto > members.len() {
        Seq::empty()
    } else {
        inspect_members(members, upto - 1, pad, colorize) + inspect_member(
            members[upto - 1].0@,
            members[upto - 1].1,
            pad,
            upto == members.len(),
            colorize,
        )
    }
}

/// A line in the inspect format: its members between braces, each on a
/// line of its own, indented by two spaces.
pub open spec fn inspect_line(members: Seq<(String, JsonValue)>, colorize: bool) -> Seq<char> {
    painted(Seq::empty(), Style::BrightWhite, colorize) + "{\n"@ + inspect_members(
        members,
        members.len() as int,
        "  "@,
        colorize,
    ) + "\n}\n"@
}

} // verus!

verus! {

/// Escapes a string. The line feed is left as it is: it is written
/// differently in short and in long strings.
pub fn escape(src: &str) -> (written: String)
    ensures
        written@ == escaped(src@, src@.len() as int),
{
    let chars = chars_of(src);
    let mut written = String::new();
    let mut i: usize = 0;
    while i < chars.len()
        invariant
            i <= chars.len(),
            chars@ == src@,
            written@ == escaped(src@, i as int),
        decreases chars.len() - i,
    {
        let c = chars[i];
        if c == '\u{8}' {
            written.append("\\b");
        } else if c == '\u{c}' {
            written.append("\\f");
        } else if c == '\r' {
            written.append("\\r");
        } else if c == '\t' {
            written.append("\\t");
        } else {
            let one = src.substring_char(i, i + 1);
            assert(one@ =~= seq![c]);
            written.append(one);
        }
        i += 1;
    }
    written
}

/// Appends `text` with `break_text` in place of every line feed.
fn push_with_breaks(out: &mut String, text: &str, break_text: &str)
    ensures
        final(out)@ == old(out)@ + with_breaks(text@, text@.len() as int, break_text@),
{
    let chars = chars_of(text);
    let mut i: usize = 0;
    while i < chars.len()
        invariant
            i <= chars.len(),
            chars@ == text@,
            out@ == old(out)@ + with_breaks(text@, i as int, break_text@),
        decreases chars.len() - i,
    {
        if chars[i] == '\n' {
            out.append(break_text);
        } else {
            let one = text.substring_char(i, i + 1);
            assert(one@ =~= seq![chars@[i as int]]);
            out.append(one);
        }
        assert(out@ =~= old(out)@ + with_breaks(text@, i + 1, break_text@));
        i += 1;
    }
}

/// The text without the blank space at its end.
fn trim_end(text: &str) -> (kept: &str)
    ensures
        kept@ == text@.subrange(0, trimmed_len(text@, text@.len() as int)),
{
    let chars = chars_of(text);
    let mut end: usize = chars.len();
    while end > 0 && space_char(chars[end - 1])
        invariant
            end <= chars.len(),
            chars@ == text@,
            trimmed_len(text@, end as int) == trimmed_len(text@, text@.len() as int),
        decreases end,
    {
        end -= 1;
    }
    text.substring_char(0, end)
}

/// Cuts a long string into pieces at its line feeds, the pieces joined
/// by a plus sign, each on a line of its own, indented by `pad`.
pub fn format_long_line(string: &str, pad: &str) -> (line: String)
    ensures
        line@ == long_string(string@, pad@),
{
    let mut newline = String::from_str("\\n' +\n");
    newline.append(pad);
    newline.append("'");
    let chars = chars_of(string);
    let ends_with_newline = chars.len() > 0 && chars[chars.len() - 1] == '\n';
    let plain = escape(string);
    let mut line = String::new();
    if ends_with_newline {
        let kept = trim_end(plain.as_str());
        push_with_breaks(&mut line, kept, newline.as_str());
        line.append("\\n");
    } else {
        push_with_breaks(&mut line, plain.as_str(), newline.as_str());
    }
    assert(line@ =~= long_string(string@, pad@));
    line
}

fn push_inspect_string(out: &mut String, text: &str, pad: &str, colorize: bool)
    ensures
        final(out)@ == old(out)@ + inspect_string(text@, pad@, colorize),
{
    let size = text.as_bytes().len();
    assert(size == vstd::utf8::encode_utf8(text@).len());
    let line = if size > LONG_STRING_SIZE {
        format_long_line(text, pad)
    } else {
        let plain = escape(text);
        let mut line = String::new();
        push_with_breaks(&mut line, plain.as_str(), "\\n");
        assert(line@ =~= short_string(text@));
        line
    };
    push_painted(out, "'", Style::Green, colorize);
    push_painted(out, line.as_str(), Style::Green, colorize);
    push_painted(out, "'", Style::Green, colorize);
    assert(out@ =~= old(out)@ + inspect_string(text@, pad@, colorize));
}

/// Appends nothing, in a style.
fn push_painted_nothing(out: &mut String, style: Style, colorize: bool)
    ensures
        final(out)@ == old(out)@ + painted(Seq::empty(), style, colorize),
{
    proof {
        reveal_strlit("");
        assert(""@ =~= Seq::<char>::empty());
    }
    push_painted(out, "", style, colorize);
}

/// Appends a value in the inspect format.
pub fn write_value(out: &mut String, value: &JsonValue, pad: &str, close: &str, colorize: bool)
    ensures
        final(out)@ == old(out)@ + inspect_value(*value, pad@, close@, colorize),
    decreases value,
{
    match value {
        JsonValue::String(s) => {
            push_inspect_string(out, s.as_str(), pad, colorize);
        },
        JsonValue::Number(n) => {
            push_painted(out, n.text.as_str(), Style::Yellow, colorize);
        },
        JsonValue::Array(items) => {
            push_painted(out, "[", Style::BrightWhite, colorize);
            if items.len() > 0 {
                out.append(" ");
            }
            let ghost start = out@;
            let mut inner = String::from_str(pad);
            inner.append("  ");
            let mut i: usize = 0;
            assert(out@ =~= start + inspect_items(items@, 0, pad@, colorize));
            while i < items.len()
                invariant
                    i <= items.len(),
                    decreases_to!(*value => *items),
                    inner@ == pad@ + "  "@,
                    out@ == start + inspect_items(items@, i as int, pad@, colorize),
                decreases items.len() - i,
            {
                proof {
                    assert(decreases_to!(*items => items[i as int]));
                }
                let mut piece = String::new();
                write_value(&mut piece, &items[i], inner.as_str(), pad, colorize);
                if i + 1 < items.len() {
                    piece.append(", ");
                } else {
                    piece.append(" ");
                }
                assert(piece@ =~= inspect_item(
                    items[i as int],
                    pad@,
                    i + 1 == items.len(),
                    colorize,
                ));
                out.append(piece.as_str());
                assert(out@ =~= start + inspect_items(items@, i + 1, pad@, colorize));
                i += 1;
            }
            push_painted(out, "]", Style::BrightWhite, colorize);
            assert(out@ =~= old(out)@ + inspect_value(*value, pad@, close@, colorize));
        },
        JsonValue::Object(members) => {
            push_painted(out, "{", Style::BrightWhite, colorize);
            if members.len() == 0 {
                push_painted(out, "}", Style::BrightWhite, colorize);
                assert(out@ =~= old(out)@ + inspect_value(*value, pad@, close@, colorize));
            } else {
                out.append("\n");
                proof {
                    assert(decreases_to!(*value => *members));
                }
                write_members(out, members, pad, colorize, Ghost(*value));
                out.append("\n");
                out.append(close);
                push_painted(out, "}", Style::BrightWhite, colorize);
                assert(out@ =~= old(out)@ + inspect_value(*value, pad@, close@, colorize));
            }
        },
        JsonValue::Null => {
            push_painted_nothing(out, Style::Green, colorize);
            out.append("null");
            assert(out@ =~= old(out)@ + inspect_value(*value, pad@, close@, colorize));
        },
        JsonValue::Bool(b) => {
            push_painted_nothing(out, Style::Green, colorize);
            push_bool(out, *b);
            assert(out@ =~= old(out)@ + inspect_value(*value, pad@, close@, colorize));
        },
    }
}

/// Appends the members of an object, each on a line of its own.
fn write_members(
    out: &mut String,
    members: &Vec<(String, JsonValue)>,
    pad: &str,
    colorize: bool,
    Ghost(parent): Ghost<JsonValue>,
)
    requires
        decreases_to!(parent => *members),
    ensures
        final(out)@ == old(out)@ + inspect_members(
            members@,
            members@.len() as int,
            pad@,
            colorize,
        ),
    decreases parent, 0nat,
{
    let mut inner = String::from_str(pad);
    inner.append("  ");
    let mut i: usize = 0;
    assert(out@ =~= old(out)@ + inspect_members(members@, 0, pad@, colorize));
    while i < members.len()
        invariant
            i <= members.len(),
            decreases_to!(parent => *members),
            inner@ == pad@ + "  "@,
            out@ == old(out)@ + inspect_members(members@, i as int, pad@, colorize),
        decreases members.len() - i,
    {
        let mut piece = String::from_str(pad);
        push_painted(&mut piece, members[i].0.as_str(), Style::BrightWhite, colorize);
        piece.append(": ");
        proof {
            assert(decreases_to!(*members => members[i as int]));
        }
        write_value(&mut piece, &members[i].1, inner.as_str(), pad, colorize);
        if i + 1 < members.len() {
            push_painted(&mut piece, ",", Style::BrightWhite, colorize);
            piece.append("\n");
        }
        assert(piece@ =~= inspect_member(
            members[i as int].0@,
            members[i as int].1,
            pad@,
            i + 1 == members.len(),
            colorize,
        ));
        out.append(piece.as_str());
        assert(out@ =~= old(out)@ + inspect_members(members@, i + 1, pad@, colorize));
        i += 1;
    }
}

} // verus!

verus! {

/// Writes the members of a line in the inspect format.
pub fn write_inspect_line(map: &Vec<(String, JsonValue)>, colorize: bool) -> (written: String)
    ensures
        written@ == inspect_line(map@, colorize),
{
    let mut written = String::new();
    push_painted_nothing(&mut written, Style::BrightWhite, colorize);
    written.append("{\n");
    let ghost parent = JsonValue::Object(*map);
    proof {
        match parent {
            JsonValue::Object(members) => {
                assert(decreases_to!(parent => members));
            },
            _ => {},
        }
    }
    write_members(&mut written, map, "  ", colorize, Ghost(parent));
    written.append("\n}\n");
    assert(written@ =~= inspect_line(map@, colorize));
    written
}

/// What a line gives in the inspect format: the object on it, or nothing
/// where the line is no JSON object.
pub open spec fn inspected(line: Seq<char>, colorize: bool) -> Option<Seq<char>> {
    match json_parse(line) {
        Ok(JsonValue::Object(members)) => Some(inspect_line(members@, colorize)),
        _ => None,
    }
}

/// Reads a line and writes the object on it in the inspect format.
pub fn inspect(line: &str, colorize: bool) -> (written: Option<String>)
    ensures
        match written {
            Some(text) => inspected(line@, colorize) == Some(text@),
            None => inspected(line@, colorize) is None,
        },
{
    match parse_json(line) {
        Ok(JsonValue::Object(members)) => Some(write_inspect_line(&members, colorize)),
        _ => None,
    }
}

} // verus!
