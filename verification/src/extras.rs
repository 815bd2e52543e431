//! The classifier of extra fields. Every member that no section renders is
//! either a short scalar, which goes on the summary line as `key=value`, a
//! long or multi-line string, which becomes a detail block, or a non-empty
//! object or array, which becomes a nested dump. The members of the
//! reserved objects that their sections do not know are classified in the
//! same way, under the name of their object.
use vstd::prelude::*;
use crate::json::{
    compact, get, has_distinct_keys, lemma_key_names_one_member, member, pretty, push_compact,
    push_pretty, JsonValue,
};
use crate::text::{has_char, indent, indented_text, push_indented, same_text, texts};

verus! {

/// Where a member stands: at the top of the record, or inside one of the
/// reserved objects.
#[derive(Debug, Clone, Copy, PartialEq, Eq, Structural)]
pub enum Scope {
    General,
    Req,
    ClientReq,
    Res,
    ClientRes,
    Error,
}

/// How a member is shown.
#[derive(Debug, Clone, Copy, PartialEq, Eq, Structural)]
pub enum Class {
    /// On the summary line, as `key=value`.
    Inline,
    /// As a detail block: a string with a line break or of more than 50
    /// characters.
    Multiline,
    /// As a nested dump: an object or array that is not empty.
    Nested,
}

/// The longest string that still goes on the summary line.
pub const LONG_LINE_SIZE: usize = 50;

/// The class of a value. It depends on the shape of the value alone.
pub open spec fn class_of(value: JsonValue) -> Class {
    match value {
        JsonValue::String(s) => if s@.contains('\n') || s@.len() > LONG_LINE_SIZE {
            Class::Multiline
        } else {
            Class::Inline
        },
        JsonValue::Array(items) => if items@.len() > 0 {
            Class::Nested
        } else {
            Class::Inline
        },
        JsonValue::Object(members) => if members@.len() > 0 {
            Class::Nested
        } else {
            Class::Inline
        },
        _ => Class::Inline,
    }
}

/// The key of the reserved object of a scope.
pub open spec fn scope_key(scope: Scope) -> Seq<char> {
    match scope {
        Scope::General => Seq::empty(),
        Scope::Req => "req"@,
        Scope::ClientReq => "client_req"@,
        Scope::Res => "res"@,
        Scope::ClientRes => "client_res"@,
        Scope::Error => "err"@,
    }
}

/// What stands before the key of a member of a scope.
pub open spec fn scope_prefix(scope: Scope) -> Seq<char> {
    match scope {
        Scope::General => Seq::empty(),
        Scope::Req => "req."@,
        Scope::ClientReq => "client_req."@,
        Scope::Res => "res."@,
        Scope::ClientRes => "client_res."@,
        Scope::Error => "err."@,
    }
}

/// Whether `key` names one of the five reserved objects.
pub open spec fn is_section_key(key: Seq<char>) -> bool {
    key == "req"@ || key == "client_req"@ || key == "res"@ || key == "client_res"@ || key
        == "err"@
}

/// Whether a member at the top of the record is rendered by a renderer of
/// its own: `src` and `req_id` always, the five reserved objects where
/// they are objects.
pub open spec fn is_consumed(key: Seq<char>, value: JsonValue) -> bool {
    key == "src"@ || key == "req_id"@ || (is_section_key(key) && value is Object)
}

/// Whether the section of a request knows `key`.
pub open spec fn is_request_key(key: Seq<char>) -> bool {
    key == "method"@ || key == "url"@ || key == "httpVersion"@ || key == "headers"@ || key
        == "header"@ || key == "body"@ || key == "trailers"@
}

/// Whether the section of a response knows `key`.
pub open spec fn is_response_key(key: Seq<char>) -> bool {
    key == "statusCode"@ || key == "headers"@ || key == "header"@ || key == "body"@
}

/// Whether a member of a scope is left to the classifier.
pub open spec fn in_scope(scope: Scope, key: Seq<char>, value: JsonValue) -> bool {
    match scope {
        Scope::General => !is_consumed(key, value),
        Scope::Req => !is_request_key(key),
        Scope::ClientReq => !(is_request_key(key) || key == "address"@ || key == "port"@),
        Scope::Res => !is_response_key(key),
        Scope::ClientRes => !is_response_key(key),
        Scope::Error => !(key == "stack"@),
    }
}

/// The members of a scope: those of the record, or those of the reserved
/// object where the record has it as an object.
pub open spec fn scope_members(other: Seq<(String, JsonValue)>, scope: Scope) -> Seq<
    (String, JsonValue),
> {
    match scope {
        Scope::General => other,
        _ => match member(other, scope_key(scope)) {
            Some(JsonValue::Object(members)) => members@,
            _ => Seq::empty(),
        },
    }
}

/// A value on the summary line: a string as it is, in double quotes where
/// it holds a space; anything else as compact JSON.
pub open spec fn inline_value(value: JsonValue) -> Seq<char> {
    match value {
        JsonValue::String(s) => if s@.contains(' ') {
            "\""@ + s@ + "\""@
        } else {
            s@
        },
        _ => compact(value),
    }
}

/// A member on the summary line.
pub open spec fn inline_pair(scope: Scope, key: Seq<char>, value: JsonValue) -> Seq<char> {
    scope_prefix(scope) + key + "="@ + inline_value(value)
}

/// A member as a nested dump: its name, then the value as indented JSON.
pub open spec fn nested_block(scope: Scope, key: Seq<char>, value: JsonValue) -> Seq<char> {
    indent() + scope_prefix(scope) + key + ": "@ + pretty(value, indent()) + "\n"@
}

/// A long or multi-line string as a detail block: its name before the
/// first line, every line indented.
pub open spec fn detail_block(scope: Scope, key: Seq<char>, value: JsonValue) -> Seq<char> {
    match value {
        JsonValue::String(s) => indented_text(scope_prefix(scope) + key + ": "@ + s@),
        _ => Seq::empty(),
    }
}

/// What a member adds to the list of the class `class`.
pub open spec fn block_of(scope: Scope, class: Class, key: Seq<char>, value: JsonValue) -> Seq<
    char,
> {
    match class {
        Class::Inline => inline_pair(scope, key, value),
        Class::Multiline => detail_block(scope, key, value),
        Class::Nested => nested_block(scope, key, value),
    }
}

/// The blocks of the class `class` that the first `upto` members of a
/// scope give, in their order.
pub open spec fn blocks(
    members: Seq<(String, JsonValue)>,
    upto: int,
    scope: Scope,
    class: Class,
) -> Seq<Seq<char>>
    decreases upto,
{
    if upto <= 0 || upto > members.len() {
        Seq::empty()
    } else {
        let key = members[upto - 1].0@;
        let value = members[upto - 1].1;
        if in_scope(scope, key, value) && class_of(value) == class {
            blocks(members, upto - 1, scope, class).push(block_of(scope, class, key, value))
        } else {
            blocks(members, upto - 1, scope, class)
        }
    }
}

/// The blocks of the class `class` that a scope gives.
pub open spec fn scope_blocks(other: Seq<(String, JsonValue)>, scope: Scope, class: Class) -> Seq<
    Seq<char>,
> {
    blocks(scope_members(other, scope), scope_members(other, scope).len() as int, scope, class)
}

/// The blocks of the class `class` of the whole record: those of the top
/// level first, then those of `req`, `client_req`, `res`, `client_res` and
/// `err`.
pub open spec fn all_blocks(other: Seq<(String, JsonValue)>, class: Class) -> Seq<Seq<char>> {
    scope_blocks(other, Scope::General, class) + scope_blocks(other, Scope::Req, class)
        + scope_blocks(other, Scope::ClientReq, class) + scope_blocks(other, Scope::Res, class)
        + scope_blocks(other, Scope::ClientRes, class) + scope_blocks(other, Scope::Error, class)
}

/// `req_id` on the summary line, where the record has it.
pub open spec fn req_id_pairs(other: Seq<(String, JsonValue)>) -> Seq<Seq<char>> {
    match member(other, "req_id"@) {
        Some(value) => seq!["req_id="@ + inline_value(value)],
        None => Seq::empty(),
    }
}

/// Everything that stands in the parentheses of the summary line:
/// `req_id` first, then the inline members.
pub open spec fn inline_pairs(other: Seq<(String, JsonValue)>) -> Seq<Seq<char>> {
    req_id_pairs(other) + all_blocks(other, Class::Inline)
}

/// The class of a value.
pub fn classify(value: &JsonValue) -> (class: Class)
    ensures
        class == class_of(*value),
{
    match value {
        JsonValue::String(s) => if has_char(s.as_str(), '\n') || s.as_str().unicode_len()
            > LONG_LINE_SIZE {
            Class::Multiline
        } else {
            Class::Inline
        },
        JsonValue::Array(items) => if items.len() > 0 {
            Class::Nested
        } else {
            Class::Inline
        },
        JsonValue::Object(members) => if members.len() > 0 {
            Class::Nested
        } else {
            Class::Inline
        },
        _ => Class::Inline,
    }
}

/// Whether the value is a string that has a line break or more than 50
/// characters.
pub fn is_multiline_string(json_value: &JsonValue) -> (yes: bool)
    ensures
        yes == (class_of(*json_value) == Class::Multiline),
{
    match classify(json_value) {
        Class::Multiline => true,
        _ => false,
    }
}

/// Whether the value is an object that is not empty.
pub fn is_object_with_keys(json_value: &JsonValue) -> (yes: bool)
    ensures
        yes == (*json_value is Object && json_value->Object_0@.len() > 0),
{
    match json_value {
        JsonValue::Object(members) => members.len() > 0,
        _ => false,
    }
}

/// Whether the value is no object, or an empty one.
pub fn is_empty_object(json_value: &JsonValue) -> (yes: bool)
    ensures
        yes == !(*json_value is Object && json_value->Object_0@.len() > 0),
{
    !is_object_with_keys(json_value)
}

/// The key of the reserved object of a scope.
pub fn key_of_scope(scope: Scope) -> (key: &'static str)
    ensures
        key@ == scope_key(scope),
{
    match scope {
        Scope::General => {
            proof {
                reveal_strlit("");
                assert(""@ =~= Seq::<char>::empty());
            }
            ""
        },
        Scope::Req => "req",
        Scope::ClientReq => "client_req",
        Scope::Res => "res",
        Scope::ClientRes => "client_res",
        Scope::Error => "err",
    }
}

/// What stands before the key of a member of a scope.
pub fn prefix_of_scope(scope: Scope) -> (prefix: &'static str)
    ensures
        prefix@ == scope_prefix(scope),
{
    match scope {
        Scope::General => {
            proof {
                reveal_strlit("");
                assert(""@ =~= Seq::<char>::empty());
            }
            ""
        },
        Scope::Req => "req.",
        Scope::ClientReq => "client_req.",
        Scope::Res => "res.",
        Scope::ClientRes => "client_res.",
        Scope::Error => "err.",
    }
}

fn request_key(key: &str) -> (yes: bool)
    ensures
        yes == is_request_key(key@),
{
    same_text(key, "method") || same_text(key, "url") || same_text(key, "httpVersion")
        || same_text(key, "headers") || same_text(key, "header") || same_text(key, "body")
        || same_text(key, "trailers")
}

fn response_key(key: &str) -> (yes: bool)
    ensures
        yes == is_response_key(key@),
{
    same_text(key, "statusCode") || same_text(key, "headers") || same_text(key, "header")
        || same_text(key, "body")
}

fn consumed(key: &str, value: &JsonValue) -> (yes: bool)
    ensures
        yes == is_consumed(key@, *value),
{
    same_text(key, "src") || same_text(key, "req_id") || ((same_text(key, "req") || same_text(
        key,
        "client_req",
    ) || same_text(key, "res") || same_text(key, "client_res") || same_text(key, "err"))
        && value.is_object())
}

/// Whether a member of a scope is left to the classifier.
pub fn scoped(scope: Scope, key: &str, value: &JsonValue) -> (yes: bool)
    ensures
        yes == in_scope(scope, key@, *value),
{
    match scope {
        Scope::General => !consumed(key, value),
        Scope::Req => !request_key(key),
        Scope::ClientReq => !(request_key(key) || same_text(key, "address") || same_text(
            key,
            "port",
        )),
        Scope::Res => !response_key(key),
        Scope::ClientRes => !response_key(key),
        Scope::Error => !same_text(key, "stack"),
    }
}

/// Appends a value as it stands on the summary line.
pub fn push_inline_value(out: &mut String, value: &JsonValue)
    ensures
        final(out)@ == old(out)@ + inline_value(*value),
{
    match value {
        JsonValue::String(s) => {
            if has_char(s.as_str(), ' ') {
                out.append("\"");
                out.append(s.as_str());
                out.append("\"");
                assert(out@ =~= old(out)@ + inline_value(*value));
            } else {
                out.append(s.as_str());
            }
        },
        _ => {
            push_compact(out, value);
        },
    }
}

/// The block of a member of the class `class`.
fn make_block(scope: Scope, class: Class, key: &str, value: &JsonValue) -> (block: String)
    requires
        class == class_of(*value),
    ensures
        block@ == block_of(scope, class, key@, *value),
{
    let mut block = String::new();
    match class {
        Class::Inline => {
            block.append(prefix_of_scope(scope));
            block.append(key);
            block.append("=");
            push_inline_value(&mut block, value);
            assert(block@ =~= inline_pair(scope, key@, *value));
        },
        Class::Multiline => {
            match value {
                JsonValue::String(s) => {
                    let mut text = String::from_str(prefix_of_scope(scope));
                    text.append(key);
                    text.append(": ");
                    text.append(s.as_str());
                    push_indented(&mut block, text.as_str());
                    assert(block@ =~= detail_block(scope, key@, *value));
                },
                _ => {},
            }
        },
        Class::Nested => {
            block.append("    ");
            block.append(prefix_of_scope(scope));
            block.append(key);
            block.append(": ");
            push_pretty(&mut block, value, "    ");
            block.append("\n");
            assert(block@ =~= nested_block(scope, key@, *value));
        },
    }
    block
}

/// Appends to `list` the blocks of the class `class` that the members give.
fn collect_members(
    members: &Vec<(String, JsonValue)>,
    scope: Scope,
    class: Class,
    list: &mut Vec<String>,
)
    ensures
        texts(final(list)@) == texts(old(list)@) + blocks(
            members@,
            members@.len() as int,
            scope,
            class,
        ),
{
    let mut i: usize = 0;
    assert(texts(list@) =~= texts(old(list)@) + blocks(members@, 0, scope, class));
    while i < members.len()
        invariant
            i <= members.len(),
            texts(list@) == texts(old(list)@) + blocks(members@, i as int, scope, class),
        decreases members.len() - i,
    {
        let key = members[i].0.as_str();
        let value = &members[i].1;
        if scoped(scope, key, value) {
            let found = classify(value);
            if found == class {
                let block = make_block(scope, class, key, value);
                let ghost before = list@;
                list.push(block);
                proof {
                    assert(texts(list@) =~= texts(before).push(block@));
                    assert(texts(list@) =~= texts(old(list)@) + blocks(
                        members@,
                        i + 1,
                        scope,
                        class,
                    ));
                }
            }
        }
        i += 1;
    }
}

/// Appends to `list` the blocks of the class `class` that a scope gives.
pub fn collect_scope(
    other: &Vec<(String, JsonValue)>,
    scope: Scope,
    class: Class,
    list: &mut Vec<String>,
)
    ensures
        texts(final(list)@) == texts(old(list)@) + scope_blocks(other@, scope, class),
{
    match scope {
        Scope::General => {
            collect_members(other, scope, class, list);
        },
        _ => {
            match get(other, key_of_scope(scope)) {
                Some(JsonValue::Object(members)) => {
                    collect_members(members, scope, class, list);
                },
                _ => {
                    assert(texts(list@) =~= texts(old(list)@) + scope_blocks(other@, scope, class));
                },
            }
        },
    }
}

/// Appends to `list` the blocks of the class `class` of the whole record.
pub fn collect_all(other: &Vec<(String, JsonValue)>, class: Class, list: &mut Vec<String>)
    ensures
        texts(final(list)@) == texts(old(list)@) + all_blocks(other@, class),
{
    collect_scope(other, Scope::General, class, list);
    collect_scope(other, Scope::Req, class, list);
    collect_scope(other, Scope::ClientReq, class, list);
    collect_scope(other, Scope::Res, class, list);
    collect_scope(other, Scope::ClientRes, class, list);
    collect_scope(other, Scope::Error, class, list);
    assert(texts(list@) =~= texts(old(list)@) + all_blocks(other@, class));
}

/// Everything that stands in the parentheses of the summary line.
pub fn collect_inline_pairs(other: &Vec<(String, JsonValue)>) -> (pairs: Vec<String>)
    ensures
        texts(pairs@) == inline_pairs(other@),
{
    let mut pairs: Vec<String> = Vec::new();
    match get(other, "req_id") {
        Some(value) => {
            let mut pair = String::from_str("req_id=");
            push_inline_value(&mut pair, value);
            pairs.push(pair);
            assert(texts(pairs@) =~= req_id_pairs(other@));
        },
        None => {
            assert(texts(pairs@) =~= req_id_pairs(other@));
        },
    }
    collect_all(other, Class::Inline, &mut pairs);
    pairs
}

} // verus!

verus! {

/// A member is rendered once. A member at the top of the record that has
/// a renderer of its own (`src`, `req_id`, and each of the five reserved
/// objects) adds nothing to the inline members, the nested dumps or the
/// detail blocks of the top level.
pub proof fn lemma_consumed_member_is_no_extra(
    other: Seq<(String, JsonValue)>,
    at: int,
    class: Class,
)
    requires
        0 <= at < other.len(),
        is_consumed(other[at].0@, other[at].1),
    ensures
        blocks(other, at + 1, Scope::General, class) == blocks(other, at, Scope::General, class),
{
}

/// Inside a reserved object, a member that the section of the object
/// renders adds nothing to the blocks of the object's further members.
pub proof fn lemma_section_member_is_no_extra(
    members: Seq<(String, JsonValue)>,
    at: int,
    scope: Scope,
    class: Class,
)
    requires
        0 <= at < members.len(),
        scope != Scope::General,
        !in_scope(scope, members[at].0@, members[at].1),
    ensures
        blocks(members, at + 1, scope, class) == blocks(members, at, scope, class),
{
}

/// In a record whose members have distinct keys, a reserved object is
/// shown once: the member of that key is the one that its section
/// renders, its members are the ones that are classified under its name,
/// and the top level gives no block for it.
pub proof fn lemma_reserved_object_is_shown_once(
    other: Seq<(String, JsonValue)>,
    at: int,
    scope: Scope,
    class: Class,
)
    requires
        has_distinct_keys(other),
        0 <= at < other.len(),
        scope != Scope::General,
        other[at].0@ == scope_key(scope),
        other[at].1 is Object,
    ensures
        member(other, scope_key(scope)) == Some(other[at].1),
        scope_members(other, scope) == other[at].1->Object_0@,
        blocks(other, at + 1, Scope::General, class) == blocks(other, at, Scope::General, class),
{
    lemma_key_names_one_member(other, at);
}

/// Every block of the top level comes from a member that has no renderer
/// of its own: where all members of a record have one, the top level
/// gives no block at all.
pub proof fn lemma_only_extras_give_blocks(
    other: Seq<(String, JsonValue)>,
    upto: int,
    class: Class,
)
    requires
        0 <= upto <= other.len(),
        forall|i: int| 0 <= i < upto ==> is_consumed(#[trigger] other[i].0@, other[i].1),
    ensures
        blocks(other, upto, Scope::General, class).len() == 0,
    decreases upto,
{
    if upto > 0 {
        lemma_only_extras_give_blocks(other, upto - 1, class);
    }
}

} // verus!
