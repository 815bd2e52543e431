//! One decoded log line, and how it is taken out of a JSON tree.
use vstd::prelude::*;
use crate::date_deserializer::{instant_of, parse_timestamp, Timestamp};
use crate::json::{get, has_distinct_keys, is_well_formed, member, JsonValue};
use crate::text::same_text;

verus! {

/// One log line: the fields that every line has, and under `other` all its
/// further members, in the order of the input.
#[derive(Debug)]
pub struct BunyanLine {
    pub name: String,
    pub hostname: String,
    pub pid: usize,
    pub component: Option<String>,
    pub level: u16,
    pub msg: String,
    pub time: Timestamp,
    pub v: Option<u8>,
    pub other: Vec<(String, JsonValue)>,
}

/// What a `BunyanLine` holds, its texts as sequences of characters.
pub struct Record {
    pub name: Seq<char>,
    pub hostname: Seq<char>,
    pub pid: usize,
    pub component: Option<Seq<char>>,
    pub level: u16,
    pub msg: Seq<char>,
    pub time: Timestamp,
    pub v: Option<u8>,
    pub other: Seq<(String, JsonValue)>,
}

impl View for BunyanLine {
    type V = Record;

    open spec fn view(&self) -> Record {
        Record {
            name: self.name@,
            hostname: self.hostname@,
            pid: self.pid,
            component: match self.component {
                Some(c) => Some(c@),
                None => None,
            },
            level: self.level,
            msg: self.msg@,
            time: self.time,
            v: self.v,
            other: self.other@,
        }
    }
}

/// A record is well formed when no two of its further members have the
/// same key and each of their values is well formed. Every record that
/// is decoded from a well-formed tree is so.
pub open spec fn is_well_formed_record(record: Record) -> bool {
    has_distinct_keys(record.other) && forall|i: int|
        0 <= i < record.other.len() ==> is_well_formed((#[trigger] record.other[i]).1)
}

/// The members that every log line has or may have.
#[derive(Debug, Clone, Copy, PartialEq, Eq, Structural)]
pub enum Field {
    Name,
    Hostname,
    Pid,
    Component,
    Level,
    Msg,
    Time,
    Version,
}

/// Why a JSON value is no log line.
#[derive(Debug, Clone, Copy, PartialEq, Eq, Structural)]
pub enum DecodeFault {
    /// The value is no object.
    NotAnObject,
    /// A member that every line must have is not there.
    Missing(Field),
    /// A member is there but not of the type that it must have.
    Invalid(Field),
    /// The `time` member is a string but no timestamp.
    Timestamp,
}

/// The key under which a field stands.
pub open spec fn field_key(field: Field) -> Seq<char> {
    match field {
        Field::Name => "name"@,
        Field::Hostname => "hostname"@,
        Field::Pid => "pid"@,
        Field::Component => "component"@,
        Field::Level => "level"@,
        Field::Msg => "msg"@,
        Field::Time => "time"@,
        Field::Version => "v"@,
    }
}

/// Whether `key` is the key of one of the fields.
pub open spec fn is_field_key(key: Seq<char>) -> bool {
    key == "name"@ || key == "hostname"@ || key == "pid"@ || key == "component"@ || key == "level"@
        || key == "msg"@ || key == "time"@ || key == "v"@
}

/// A member that must be there and be a string.
pub open spec fn required_text(members: Seq<(String, JsonValue)>, field: Field) -> Result<
    Seq<char>,
    DecodeFault,
> {
    match member(members, field_key(field)) {
        None => Err(DecodeFault::Missing(field)),
        Some(JsonValue::String(s)) => Ok(s@),
        Some(_) => Err(DecodeFault::Invalid(field)),
    }
}

/// A member that may be missing or null, and is a string otherwise.
pub open spec fn optional_text(members: Seq<(String, JsonValue)>, field: Field) -> Result<
    Option<Seq<char>>,
    DecodeFault,
> {
    match member(members, field_key(field)) {
        None => Ok(None),
        Some(JsonValue::Null) => Ok(None),
        Some(JsonValue::String(s)) => Ok(Some(s@)),
        Some(_) => Err(DecodeFault::Invalid(field)),
    }
}

/// A member that must be there and be an integer from zero to `max`.
pub open spec fn required_number(members: Seq<(String, JsonValue)>, field: Field, max: u64)
    -> Result<u64, DecodeFault> {
    match member(members, field_key(field)) {
        None => Err(DecodeFault::Missing(field)),
        Some(JsonValue::Number(n)) => match n.unsigned {
            Some(u) => if u <= max {
                Ok(u)
            } else {
                Err(DecodeFault::Invalid(field))
            },
            None => Err(DecodeFault::Invalid(field)),
        },
        Some(_) => Err(DecodeFault::Invalid(field)),
    }
}

/// A member that may be missing or null, and is an integer from zero to
/// `max` otherwise.
pub open spec fn optional_number(members: Seq<(String, JsonValue)>, field: Field, max: u64)
    -> Result<Option<u64>, DecodeFault> {
    match member(members, field_key(field)) {
        None => Ok(None),
        Some(JsonValue::Null) => Ok(None),
        Some(JsonValue::Number(n)) => match n.unsigned {
            Some(u) => if u <= max {
                Ok(Some(u))
            } else {
                Err(DecodeFault::Invalid(field))
            },
            None => Err(DecodeFault::Invalid(field)),
        },
        Some(_) => Err(DecodeFault::Invalid(field)),
    }
}

/// The `time` member as an instant.
pub open spec fn required_time(members: Seq<(String, JsonValue)>) -> Result<
    Timestamp,
    DecodeFault,
> {
    match required_text(members, Field::Time) {
        Err(fault) => Err(fault),
        Ok(text) => match instant_of(text) {
            Some(stamp) => Ok(stamp),
            None => Err(DecodeFault::Timestamp),
        },
    }
}

/// The first `upto` members without those that are fields.
pub open spec fn others(members: Seq<(String, JsonValue)>, upto: int) -> Seq<(String, JsonValue)>
    decreases upto,
{
    if upto <= 0 || upto > members.len() {
        Seq::empty()
    } else if is_field_key(members[upto - 1].0@) {
        others(members, upto - 1)
    } else {
        others(members, upto - 1).push(members[upto - 1])
    }
}

/// The first fault among the fields, in the order name, hostname, pid,
/// component, level, msg, time, v.
pub open spec fn first_fault(members: Seq<(String, JsonValue)>) -> Option<DecodeFault> {
    if required_text(members, Field::Name) is Err {
        Some(required_text(members, Field::Name)->Err_0)
    } else if required_text(members, Field::Hostname) is Err {
        Some(required_text(members, Field::Hostname)->Err_0)
    } else if required_number(members, Field::Pid, usize::MAX as u64) is Err {
        Some(required_number(members, Field::Pid, usize::MAX as u64)->Err_0)
    } else if optional_text(members, Field::Component) is Err {
        Some(optional_text(members, Field::Component)->Err_0)
    } else if required_number(members, Field::Level, 65535) is Err {
        Some(required_number(members, Field::Level, 65535)->Err_0)
    } else if required_text(members, Field::Msg) is Err {
        Some(required_text(members, Field::Msg)->Err_0)
    } else if required_time(members) is Err {
        Some(required_time(members)->Err_0)
    } else if optional_number(members, Field::Version, 255) is Err {
        Some(optional_number(members, Field::Version, 255)->Err_0)
    } else {
        None
    }
}

/// The log line that an object with these members is, or the first fault
/// among its fields.
pub open spec fn decoded_members(members: Seq<(String, JsonValue)>) -> Result<Record, DecodeFault> {
    match first_fault(members) {
        Some(fault) => Err(fault),
        None => Ok(
            Record {
                name: required_text(members, Field::Name)->Ok_0,
                hostname: required_text(members, Field::Hostname)->Ok_0,
                pid: required_number(members, Field::Pid, usize::MAX as u64)->Ok_0 as usize,
                component: optional_text(members, Field::Component)->Ok_0,
                level: required_number(members, Field::Level, 65535)->Ok_0 as u16,
                msg: required_text(members, Field::Msg)->Ok_0,
                time: required_time(members)->Ok_0,
                v: match optional_number(members, Field::Version, 255)->Ok_0 {
                    Some(v) => Some(v as u8),
                    None => None,
                },
                other: others(members, members.len() as int),
            },
        ),
    }
}

/// The log line that a JSON value is, or why it is none.
pub open spec fn decoded(tree: JsonValue) -> Result<Record, DecodeFault> {
    match tree {
        JsonValue::Object(members) => decoded_members(members@),
        _ => Err(DecodeFault::NotAnObject),
    }
}

/// Whether `entry` is one of the first `upto` members.
pub open spec fn is_among(members: Seq<(String, JsonValue)>, upto: int, entry: (String, JsonValue))
    -> bool {
    exists|i: int| 0 <= i < upto && #[trigger] members[i] == entry
}

/// The members that are left when the fields are taken out are members,
/// and no two of them have the same key where no two members have.
pub proof fn lemma_others_are_members(members: Seq<(String, JsonValue)>, upto: int)
    requires
        0 <= upto <= members.len(),
        has_distinct_keys(members),
    ensures
        has_distinct_keys(others(members, upto)),
        forall|k: int|
            0 <= k < others(members, upto).len() ==> is_among(
                members,
                upto,
                #[trigger] others(members, upto)[k],
            ),
    decreases upto,
{
    if upto > 0 {
        lemma_others_are_members(members, upto - 1);
        let before = others(members, upto - 1);
        let now = others(members, upto);
        let last = members[upto - 1];
        assert forall|k: int| 0 <= k < now.len() implies is_among(
            members,
            upto,
            #[trigger] now[k],
        ) by {
            if k < before.len() {
                assert(now[k] == before[k]);
                assert(is_among(members, upto - 1, before[k]));
                let i = choose|i: int| 0 <= i < upto - 1 && #[trigger] members[i] == before[k];
                assert(members[i] == now[k]);
            } else {
                assert(now[k] == last);
            }
        }
        assert forall|a: int, b: int| 0 <= a < b < now.len() implies (#[trigger] now[a]).0@ != (
        #[trigger] now[b]).0@ by {
            if b < before.len() {
                assert(now[a] == before[a] && now[b] == before[b]);
            } else {
                assert(now[b] == last);
                assert(now[a] == before[a]);
                assert(is_among(members, upto - 1, before[a]));
                let i = choose|i: int| 0 <= i < upto - 1 && #[trigger] members[i] == before[a];
                assert(members[i].0@ != members[upto - 1].0@);
            }
        }
    }
}

/// The key under which a field stands.
pub fn key_of(field: Field) -> (key: &'static str)
    ensures
        key@ == field_key(field),
{
    match field {
        Field::Name => "name",
        Field::Hostname => "hostname",
        Field::Pid => "pid",
        Field::Component => "component",
        Field::Level => "level",
        Field::Msg => "msg",
        Field::Time => "time",
        Field::Version => "v",
    }
}

/// Whether `key` is the key of one of the fields.
pub fn field_key_named(key: &str) -> (yes: bool)
    ensures
        yes == is_field_key(key@),
{
    same_text(key, "name") || same_text(key, "hostname") || same_text(key, "pid") || same_text(
        key,
        "component",
    ) || same_text(key, "level") || same_text(key, "msg") || same_text(key, "time") || same_text(
        key,
        "v",
    )
}

fn take_text(members: &Vec<(String, JsonValue)>, field: Field) -> (taken: Result<
    String,
    DecodeFault,
>)
    ensures
        match taken {
            Ok(text) => required_text(members@, field) == Ok::<Seq<char>, DecodeFault>(text@),
            Err(fault) => required_text(members@, field) == Err::<Seq<char>, DecodeFault>(fault),
        },
{
    match get(members, key_of(field)) {
        None => Err(DecodeFault::Missing(field)),
        Some(JsonValue::String(s)) => Ok(s.clone()),
        Some(_) => Err(DecodeFault::Invalid(field)),
    }
}

fn take_optional_text(members: &Vec<(String, JsonValue)>, field: Field) -> (taken: Result<
    Option<String>,
    DecodeFault,
>)
    ensures
        match taken {
            Ok(Some(text)) => optional_text(members@, field) == Ok::<
                Option<Seq<char>>,
                DecodeFault,
            >(Some(text@)),
            Ok(None) => optional_text(members@, field) == Ok::<Option<Seq<char>>, DecodeFault>(
                None,
            ),
            Err(fault) => optional_text(members@, field) == Err::<Option<Seq<char>>, DecodeFault>(
                fault,
            ),
        },
{
    match get(members, key_of(field)) {
        None => Ok(None),
        Some(JsonValue::Null) => Ok(None),
        Some(JsonValue::String(s)) => Ok(Some(s.clone())),
        Some(_) => Err(DecodeFault::Invalid(field)),
    }
}

fn take_number(members: &Vec<(String, JsonValue)>, field: Field, max: u64) -> (taken: Result<
    u64,
    DecodeFault,
>)
    ensures
        taken == required_number(members@, field, max),
{
    match get(members, key_of(field)) {
        None => Err(DecodeFault::Missing(field)),
        Some(JsonValue::Number(n)) => match n.unsigned {
            Some(u) => if u <= max {
                Ok(u)
            } else {
                Err(DecodeFault::Invalid(field))
            },
            None => Err(DecodeFault::Invalid(field)),
        },
        Some(_) => Err(DecodeFault::Invalid(field)),
    }
}

fn take_optional_number(members: &Vec<(String, JsonValue)>, field: Field, max: u64) -> (taken:
    Result<Option<u64>, DecodeFault>)
    ensures
        taken == optional_number(members@, field, max),
{
    match get(members, key_of(field)) {
        None => Ok(None),
        Some(JsonValue::Null) => Ok(None),
        Some(JsonValue::Number(n)) => match n.unsigned {
            Some(u) => if u <= max {
                Ok(Some(u))
            } else {
                Err(DecodeFault::Invalid(field))
            },
            None => Err(DecodeFault::Invalid(field)),
        },
        Some(_) => Err(DecodeFault::Invalid(field)),
    }
}

fn take_time(members: &Vec<(String, JsonValue)>) -> (taken: Result<Timestamp, DecodeFault>)
    ensures
        taken == required_time(members@),
{
    match take_text(members, Field::Time) {
        Err(fault) => Err(fault),
        Ok(text) => match parse_timestamp(text.as_str()) {
            Ok(stamp) => Ok(stamp),
            Err(_) => Err(DecodeFault::Timestamp),
        },
    }
}

/// The members that are no fields, in their order.
fn take_others(members: Vec<(String, JsonValue)>) -> (kept: Vec<(String, JsonValue)>)
    ensures
        kept@ == others(members@, members@.len() as int),
{
    let mut kept: Vec<(String, JsonValue)> = Vec::new();
    let ghost all = members@;
    for entry in it: members
        invariant
            it.seq() == all,
            kept@ == others(all, it.index()),
    {
        if !field_key_named(entry.0.as_str()) {
            kept.push(entry);
        }
    }
    kept
}

impl BunyanLine {
    /// Takes the log line out of a JSON value. The record of a well-formed
    /// tree is well formed.
    pub fn decode(tree: JsonValue) -> (line: Result<BunyanLine, DecodeFault>)
        ensures
            match line {
                Ok(record) => decoded(tree) == Ok::<Record, DecodeFault>(record@),
                Err(fault) => decoded(tree) == Err::<Record, DecodeFault>(fault),
            },
            is_well_formed(tree) && line is Ok ==> is_well_formed_record(line->Ok_0@),
    {
        let members = match tree {
            JsonValue::Object(members) => members,
            _ => {
                return Err(DecodeFault::NotAnObject);
            },
        };
        let name = match take_text(&members, Field::Name) {
            Ok(name) => name,
            Err(fault) => {
                return Err(fault);
            },
        };
        let hostname = match take_text(&members, Field::Hostname) {
            Ok(hostname) => hostname,
            Err(fault) => {
                return Err(fault);
            },
        };
        let pid = match take_number(&members, Field::Pid, usize::MAX as u64) {
            Ok(pid) => pid as usize,
            Err(fault) => {
                return Err(fault);
            },
        };
        let component = match take_optional_text(&members, Field::Component) {
            Ok(component) => component,
            Err(fault) => {
                return Err(fault);
            },
        };
        let level = match take_number(&members, Field::Level, 65535) {
            Ok(level) => level as u16,
            Err(fault) => {
                return Err(fault);
            },
        };
        let msg = match take_text(&members, Field::Msg) {
            Ok(msg) => msg,
            Err(fault) => {
                return Err(fault);
            },
        };
        let time = match take_time(&members) {
            Ok(time) => time,
            Err(fault) => {
                return Err(fault);
            },
        };
        let v = match take_optional_number(&members, Field::Version, 255) {
            Ok(Some(v)) => Some(v as u8),
            Ok(None) => None,
            Err(fault) => {
                return Err(fault);
            },
        };
        let ghost all = members@;
        let other = take_others(members);
        proof {
            if is_well_formed(tree) {
                lemma_others_are_members(all, all.len() as int);
                assert forall|k: int| 0 <= k < other@.len() implies is_well_formed(
                    (#[trigger] other@[k]).1,
                ) by {
                    assert(is_among(all, all.len() as int, other@[k]));
                    let i = choose|i: int|
                        0 <= i < all.len() && #[trigger] all[i] == other@[k];
                    assert(is_well_formed(all[i].1));
                }
            }
        }
        Ok(BunyanLine { name, hostname, pid, component, level, msg, time, v, other })
    }
}

} // verus!
