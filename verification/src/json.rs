//! The JSON tree that a log line decodes to, the `serde_json` calls that
//! build it, and its renderings as text.
use vstd::prelude::*;
use crate::text::{
    decimal, is_blank, push_decimal, push_signed_decimal, same_text, signed_decimal,
};

verus! {

/// A JSON number: its text as `serde_json` prints it, and its value where it
/// is an integer from zero up.
#[derive(Debug, Clone)]
pub struct JsonNumber {
    pub text: String,
    pub unsigned: Option<u64>,
}

/// A JSON value. An object keeps its members in the order of the input.
#[derive(Debug)]
pub enum JsonValue {
    Null,
    Bool(bool),
    Number(JsonNumber),
    String(String),
    Array(Vec<JsonValue>),
    Object(Vec<(String, JsonValue)>),
}

/// Where and why `serde_json` gave up on a text.
#[derive(Debug, Clone)]
pub struct JsonSyntaxError {
    pub message: String,
    pub column: usize,
}

/// `serde_json::Value`, carried from the reader to `lift_value` and
/// nowhere else.
#[verifier::external_type_specification]
#[verifier::external_body]
pub struct ExValue(serde_json::Value);

/// The tree that a `serde_json::Value` holds.
pub uninterp spec fn tree_of(value: serde_json::Value) -> JsonValue;

/// What `serde_json::from_str` makes of a text: the tree, or the failure.
pub uninterp spec fn json_parse(text: Seq<char>) -> Result<JsonValue, JsonSyntaxError>;

/// A string as `serde_json` prints it: in double quotes, with its escapes.
pub uninterp spec fn json_quoted(text: Seq<char>) -> Seq<char>;

/// `serde_json::from_str` at type `serde_json::Value`. The result is a
/// function of the text alone; a failure is handed on as its message and
/// column. A text of nothing but white space holds no value and fails.
#[verifier::external_body]
fn parse_value(text: &str) -> (parsed: Result<serde_json::Value, JsonSyntaxError>)
    ensures
        match parsed {
            Ok(value) => json_parse(text@) == Ok::<JsonValue, JsonSyntaxError>(tree_of(value)),
            Err(failure) => json_parse(text@) == Err::<JsonValue, JsonSyntaxError>(failure),
        },
        is_blank(text@) ==> parsed is Err,
{
    match serde_json::from_str::<serde_json::Value>(text) {
        Ok(value) => Ok(value),
        Err(e) => Err(JsonSyntaxError { message: e.to_string(), column: e.column() }),
    }
}

/// Copies a `serde_json::Value` into the library's tree, variant by variant:
/// a number by `Number::to_string` and `Number::as_u64`, an object by
/// `Map::iter`, in its order. A `serde_json::Map` holds every key once,
/// so no object of the tree has two members of the same key.
#[verifier::external_body]
fn lift_value(value: &serde_json::Value) -> (tree: JsonValue)
    ensures
        tree == tree_of(*value),
        is_well_formed(tree),
{
    match value {
        serde_json::Value::Null => JsonValue::Null,
        serde_json::Value::Bool(b) => JsonValue::Bool(*b),
        serde_json::Value::Number(n) => JsonValue::Number(
            JsonNumber { text: n.to_string(), unsigned: n.as_u64() },
        ),
        serde_json::Value::String(s) => JsonValue::String(s.clone()),
        serde_json::Value::Array(items) => JsonValue::Array(items.iter().map(lift_value).collect()),
        serde_json::Value::Object(map) => JsonValue::Object(
            map.iter().map(|(k, v)| (k.clone(), lift_value(v))).collect(),
        ),
    }
}

/// The `Display` of `serde_json::Value::String`: the text as a JSON string
/// literal.
#[verifier::external_body]
fn quote_text(text: &str) -> (quoted: String)
    ensures
        quoted@ == json_quoted(text@),
{
    serde_json::Value::String(text.to_owned()).to_string()
}

/// Reads `text` as one JSON value. The tree that is read is well formed;
/// a blank text gives none.
pub fn parse_json(text: &str) -> (parsed: Result<JsonValue, JsonSyntaxError>)
    ensures
        parsed == json_parse(text@),
        parsed is Ok ==> is_well_formed(parsed->Ok_0),
        is_blank(text@) ==> parsed is Err,
{
    match parse_value(text) {
        Ok(value) => Ok(lift_value(&value)),
        Err(failure) => Err(failure),
    }
}

/// No two members have the same key.
pub open spec fn has_distinct_keys(members: Seq<(String, JsonValue)>) -> bool {
    forall|i: int, j: int|
        0 <= i < j < members.len() ==> (#[trigger] members[i]).0@ != (#[trigger] members[j]).0@
}

/// A tree is well formed when no object in it, at any depth, has two
/// members of the same key. Every tree that is read from a text is so.
pub open spec fn is_well_formed(value: JsonValue) -> bool
    decreases value,
{
    match value {
        JsonValue::Array(items) => forall|i: int|
            0 <= i < items@.len() ==> is_well_formed(#[trigger] items@[i]),
        JsonValue::Object(members) => has_distinct_keys(members@) && forall|i: int|
            0 <= i < members@.len() ==> is_well_formed((#[trigger] members@[i]).1),
        _ => true,
    }
}

/// The position of the first member at or after `from` that is named `key`.
pub open spec fn member_index(members: Seq<(String, JsonValue)>, key: Seq<char>, from: int)
    -> Option<int>
    decreases members.len() - from,
{
    if from < 0 || from >= members.len() {
        None
    } else if members[from].0@ == key {
        Some(from)
    } else {
        member_index(members, key, from + 1)
    }
}

/// The value of the first member named `key`.
pub open spec fn member(members: Seq<(String, JsonValue)>, key: Seq<char>) -> Option<JsonValue> {
    match member_index(members, key, 0) {
        Some(at) => Some(members[at].1),
        None => None,
    }
}

/// `true` or `false`.
pub open spec fn bool_text(b: bool) -> Seq<char> {
    if b {
        "true"@
    } else {
        "false"@
    }
}

/// The value on one line of JSON, as `serde_json` prints it: no blank space,
/// strings and keys quoted.
pub open spec fn compact(value: JsonValue) -> Seq<char>
    decreases value,
{
    match value {
        JsonValue::Null => "null"@,
        JsonValue::Bool(b) => bool_text(b),
        JsonValue::Number(n) => n.text@,
        JsonValue::String(s) => json_quoted(s@),
        JsonValue::Array(items) => "["@ + compact_items(items@, 0) + "]"@,
        JsonValue::Object(members) => "{"@ + compact_members(members@, 0) + "}"@,
    }
}

/// The items from `from` on, each after a comma but the very first.
pub open spec fn compact_items(items: Seq<JsonValue>, from: int) -> Seq<char>
    decreases items, items.len() - from,
{
    if 0 <= from < items.len() {
        (if from > 0 {
            ","@
        } else {
            Seq::empty()
        }) + compact(items[from]) + compact_items(items, from + 1)
    } else {
        Seq::empty()
    }
}

/// The members from `from` on, each after a comma but the very first.
pub open spec fn compact_members(members: Seq<(String, JsonValue)>, from: int) -> Seq<char>
    decreases members, members.len() - from,
{
    if 0 <= from < members.len() {
        (if from > 0 {
            ","@
        } else {
            Seq::empty()
        }) + json_quoted(members[from].0@) + ":"@ + compact(members[from].1) + compact_members(
            members,
            from + 1,
        )
    } else {
        Seq::empty()
    }
}

/// The value as plain text: a string as it is, anything else as compact
/// JSON.
pub open spec fn plain_text(value: JsonValue) -> Seq<char> {
    match value {
        JsonValue::String(s) => s@,
        _ => compact(value),
    }
}

/// The value as indented JSON. `pad` is the indentation of the line on
/// which the value starts; what lies inside a non-empty array or object
/// stands two spaces deeper, one item per line.
pub open spec fn pretty(value: JsonValue, pad: Seq<char>) -> Seq<char>
    decreases value,
{
    match value {
        JsonValue::Null => "null"@,
        JsonValue::Bool(b) => bool_text(b),
        JsonValue::Number(n) => n.text@,
        JsonValue::String(s) => json_quoted(s@),
        JsonValue::Array(items) => if items@.len() == 0 {
            "[]"@
        } else {
            "[\n"@ + pretty_items(items@, 0, pad + "  "@) + pad + "]"@
        },
        JsonValue::Object(members) => if members@.len() == 0 {
            "{}"@
        } else {
            "{\n"@ + pretty_members(members@, 0, pad + "  "@) + pad + "}"@
        },
    }
}

/// The lines of the items from `from` on, each indented by `pad`, and each
/// but the last closed by a comma.
pub open spec fn pretty_items(items: Seq<JsonValue>, from: int, pad: Seq<char>) -> Seq<char>
    decreases items, items.len() - from,
{
    if 0 <= from < items.len() {
        pad + pretty(items[from], pad) + (if from + 1 < items.len() {
            ",\n"@
        } else {
            "\n"@
        }) + pretty_items(items, from + 1, pad)
    } else {
        Seq::empty()
    }
}

/// The lines of the members from `from` on: the key in double quotes, a
/// colon, a space, the value.
pub open spec fn pretty_members(members: Seq<(String, JsonValue)>, from: int, pad: Seq<char>)
    -> Seq<char>
    decreases members, members.len() - from,
{
    if 0 <= from < members.len() {
        pad + "\""@ + members[from].0@ + "\": "@ + pretty(members[from].1, pad) + (if from + 1
            < members.len() {
            ",\n"@
        } else {
            "\n"@
        }) + pretty_members(members, from + 1, pad)
    } else {
        Seq::empty()
    }
}

impl JsonNumber {
    /// The number `n`.
    pub fn from_u64(n: u64) -> (number: JsonNumber)
        ensures
            number.text@ == decimal(n as nat),
            number.unsigned == Some(n),
    {
        let mut text = String::new();
        push_decimal(&mut text, n);
        assert(text@ =~= decimal(n as nat));
        JsonNumber { text, unsigned: Some(n) }
    }

    /// The number `n`.
    pub fn from_i64(n: i64) -> (number: JsonNumber)
        ensures
            number.text@ == signed_decimal(n as int),
            number.unsigned == if n >= 0 {
                Some(n as u64)
            } else {
                None
            },
    {
        let mut text = String::new();
        push_signed_decimal(&mut text, n);
        assert(text@ =~= signed_decimal(n as int));
        JsonNumber {
            text,
            unsigned: if n >= 0 {
                Some(n as u64)
            } else {
                None
            },
        }
    }
}

impl JsonValue {
    pub fn is_null(&self) -> (yes: bool)
        ensures
            yes == (*self is Null),
    {
        match self {
            JsonValue::Null => true,
            _ => false,
        }
    }

    pub fn is_string(&self) -> (yes: bool)
        ensures
            yes == (*self is String),
    {
        match self {
            JsonValue::String(_) => true,
            _ => false,
        }
    }

    pub fn is_number(&self) -> (yes: bool)
        ensures
            yes == (*self is Number),
    {
        match self {
            JsonValue::Number(_) => true,
            _ => false,
        }
    }

    pub fn is_array(&self) -> (yes: bool)
        ensures
            yes == (*self is Array),
    {
        match self {
            JsonValue::Array(_) => true,
            _ => false,
        }
    }

    pub fn is_object(&self) -> (yes: bool)
        ensures
            yes == (*self is Object),
    {
        match self {
            JsonValue::Object(_) => true,
            _ => false,
        }
    }
}

/// Looks up the first member named `key`.
pub fn get<'a>(members: &'a Vec<(String, JsonValue)>, key: &str) -> (found: Option<&'a JsonValue>)
    ensures
        match found {
            Some(value) => member(members@, key@) == Some(*value),
            None => member(members@, key@) is None,
        },
{
    let mut i: usize = 0;
    while i < members.len()
        invariant
            i <= members.len(),
            member_index(members@, key@, i as int) == member_index(members@, key@, 0),
        decreases members.len() - i,
    {
        if same_text(members[i].0.as_str(), key) {
            return Some(&members[i].1);
        }
        i += 1;
    }
    None
}

/// Appends `true` or `false`.
pub fn push_bool(out: &mut String, b: bool)
    ensures
        final(out)@ == old(out)@ + bool_text(b),
{
    if b {
        out.append("true");
    } else {
        out.append("false");
    }
}

/// Appends the value as compact JSON.
pub fn push_compact(out: &mut String, value: &JsonValue)
    ensures
        final(out)@ == old(out)@ + compact(*value),
    decreases value,
{
    match value {
        JsonValue::Null => {
            out.append("null");
        },
        JsonValue::Bool(b) => {
            push_bool(out, *b);
        },
        JsonValue::Number(n) => {
            out.append(n.text.as_str());
        },
        JsonValue::String(s) => {
            let quoted = quote_text(s.as_str());
            out.append(quoted.as_str());
        },
        JsonValue::Array(items) => {
            out.append("[");
            let ghost before = out@;
            let mut i: usize = 0;
            while i < items.len()
                invariant
                    i <= items.len(),
                    decreases_to!(*value => *items),
                    out@ + compact_items(items@, i as int) == before + compact_items(items@, 0),
                decreases items.len() - i,
            {
                let ghost start = out@;
                if i > 0 {
                    out.append(",");
                }
                proof {
                    assert(decreases_to!(*items => items[i as int]));
                }
                push_compact(out, &items[i]);
                proof {
                    let sep = if i > 0 {
                        ","@
                    } else {
                        Seq::<char>::empty()
                    };
                    assert(out@ == start + sep + compact(items[i as int]));
                    assert(out@ + compact_items(items@, i + 1) =~= start + compact_items(
                        items@,
                        i as int,
                    ));
                }
                i += 1;
            }
            out.append("]");
            assert(out@ =~= old(out)@ + compact(*value));
        },
        JsonValue::Object(members) => {
            out.append("{");
            let ghost before = out@;
            let mut i: usize = 0;
            while i < members.len()
                invariant
                    i <= members.len(),
                    decreases_to!(*value => *members),
                    out@ + compact_members(members@, i as int) == before + compact_members(
                        members@,
                        0,
                    ),
                decreases members.len() - i,
            {
                let ghost start = out@;
                if i > 0 {
                    out.append(",");
                }
                let quoted = quote_text(members[i].0.as_str());
                out.append(quoted.as_str());
                out.append(":");
                proof {
                    assert(decreases_to!(*members => members[i as int]));
                }
                push_compact(out, &members[i].1);
                proof {
                    let sep = if i > 0 {
                        ","@
                    } else {
                        Seq::<char>::empty()
                    };
                    assert(out@ == start + sep + json_quoted(members[i as int].0@) + ":"@ + compact(
                        members[i as int].1,
                    ));
                    assert(out@ + compact_members(members@, i + 1) =~= start + compact_members(
                        members@,
                        i as int,
                    ));
                }
                i += 1;
            }
            out.append("}");
            assert(out@ =~= old(out)@ + compact(*value));
        },
    }
}

/// Appends the value as plain text.
pub fn push_plain_text(out: &mut String, value: &JsonValue)
    ensures
        final(out)@ == old(out)@ + plain_text(*value),
{
    match value {
        JsonValue::String(s) => {
            out.append(s.as_str());
        },
        _ => {
            push_compact(out, value);
        },
    }
}

/// The value as plain text.
pub fn plain_text_of(value: &JsonValue) -> (text: String)
    ensures
        text@ == plain_text(*value),
{
    let mut text = String::new();
    push_plain_text(&mut text, value);
    assert(text@ =~= plain_text(*value));
    text
}

/// Appends the value as indented JSON that starts on a line indented by
/// `pad`.
pub fn push_pretty(out: &mut String, value: &JsonValue, pad: &str)
    ensures
        final(out)@ == old(out)@ + pretty(*value, pad@),
    decreases value,
{
    match value {
        JsonValue::Null => {
            out.append("null");
        },
        JsonValue::Bool(b) => {
            push_bool(out, *b);
        },
        JsonValue::Number(n) => {
            out.append(n.text.as_str());
        },
        JsonValue::String(s) => {
            let quoted = quote_text(s.as_str());
            out.append(quoted.as_str());
        },
        JsonValue::Array(items) => {
            if items.len() == 0 {
                out.append("[]");
            } else {
                let mut inner = String::from_str(pad);
                inner.append("  ");
                out.append("[\n");
                let ghost before = out@;
                let mut i: usize = 0;
                while i < items.len()
                    invariant
                        i <= items.len(),
                        decreases_to!(*value => *items),
                        inner@ == pad@ + "  "@,
                        out@ + pretty_items(items@, i as int, inner@) == before + pretty_items(
                            items@,
                            0,
                            inner@,
                        ),
                    decreases items.len() - i,
                {
                    let ghost start = out@;
                    out.append(inner.as_str());
                    proof {
                        assert(decreases_to!(*items => items[i as int]));
                    }
                    push_pretty(out, &items[i], inner.as_str());
                    if i + 1 < items.len() {
                        out.append(",\n");
                    } else {
                        out.append("\n");
                    }
                    proof {
                        assert(out@ + pretty_items(items@, i + 1, inner@) =~= start + pretty_items(
                            items@,
                            i as int,
                            inner@,
                        ));
                    }
                    i += 1;
                }
                out.append(pad);
                out.append("]");
                assert(out@ =~= old(out)@ + pretty(*value, pad@));
            }
        },
        JsonValue::Object(members) => {
            if members.len() == 0 {
                out.append("{}");
            } else {
                let mut inner = String::from_str(pad);
                inner.append("  ");
                out.append("{\n");
                let ghost before = out@;
                let mut i: usize = 0;
                while i < members.len()
                    invariant
                        i <= members.len(),
                        decreases_to!(*value => *members),
                        inner@ == pad@ + "  "@,
                        out@ + pretty_members(members@, i as int, inner@) == before
                            + pretty_members(members@, 0, inner@),
                    decreases members.len() - i,
                {
                    let ghost start = out@;
                    out.append(inner.as_str());
                    out.append("\"");
                    out.append(members[i].0.as_str());
                    out.append("\": ");
                    proof {
                        assert(decreases_to!(*members => members[i as int]));
                    }
                    push_pretty(out, &members[i].1, inner.as_str());
                    if i + 1 < members.len() {
                        out.append(",\n");
                    } else {
                        out.append("\n");
                    }
                    proof {
                        assert(out@ + pretty_members(members@, i + 1, inner@) =~= start
                            + pretty_members(members@, i as int, inner@));
                    }
                    i += 1;
                }
                out.append(pad);
                out.append("}");
                assert(out@ =~= old(out)@ + pretty(*value, pad@));
            }
        },
    }
}

/// Where no two members have the same key, a key names one member and no
/// other: the member that `member` finds is every member of that key.
pub proof fn lemma_key_names_one_member(members: Seq<(String, JsonValue)>, at: int)
    requires
        has_distinct_keys(members),
        0 <= at < members.len(),
    ensures
        member_index(members, members[at].0@, 0) == Some(at),
        member(members, members[at].0@) == Some(members[at].1),
{
    lemma_member_index_from(members, at, 0);
}

/// The search for the key of the member at `at` finds it from every
/// position up to `at`.
proof fn lemma_member_index_from(members: Seq<(String, JsonValue)>, at: int, from: int)
    requires
        has_distinct_keys(members),
        0 <= from <= at < members.len(),
    ensures
        member_index(members, members[at].0@, from) == Some(at),
    decreases at - from,
{
    if from < at {
        assert(members[from].0@ != members[at].0@);
        lemma_member_index_from(members, at, from + 1);
    }
}

} // verus!
