//! Severity levels: their numbers, their names, and how they are read.
use vstd::prelude::*;
use vstd::std_specs::convert::FromSpecImpl;
use crate::errors::LogLevelParseError;
use crate::style::{painted, push_painted, Style};
use crate::text::{
    decimal, has_prefix, parse_u16_chars, parsed_u16, push_decimal, upper_chars, upper_text,
};

verus! {

#[derive(Debug, Eq, PartialEq, Structural, Ord, PartialOrd, Clone, Hash)]
pub enum LogLevel {
    TRACE,
    DEBUG,
    INFO,
    WARN,
    ERROR,
    FATAL,
    OTHER(u16),
}

/// The level that the number `code` stands for.
pub open spec fn level_of(code: u16) -> LogLevel {
    if code == 10 {
        LogLevel::TRACE
    } else if code == 20 {
        LogLevel::DEBUG
    } else if code == 30 {
        LogLevel::INFO
    } else if code == 40 {
        LogLevel::WARN
    } else if code == 50 {
        LogLevel::ERROR
    } else if code == 60 {
        LogLevel::FATAL
    } else {
        LogLevel::OTHER(code)
    }
}

/// `count` spaces.
pub open spec fn spaces(count: nat) -> Seq<char> {
    Seq::new(count, |i: int| ' ')
}

/// The name of a level in its style.
pub open spec fn painted_label(level: LogLevel, colorize: bool) -> Seq<char> {
    match level.style() {
        Some(style) => painted(level.label(), style, colorize),
        None => level.label(),
    }
}

/// A level as it is shown: its name, in its style, after as many spaces
/// as the name is short of five characters.
pub open spec fn display_text(level: LogLevel, colorize: bool) -> Seq<char> {
    let width = level.label().len();
    (if width < 5 {
        spaces((5 - width) as nat)
    } else {
        Seq::empty()
    }) + painted_label(level, colorize)
}

/// The level that `text` names, whatever the case of its letters: one of
/// the six names, or a number, which may follow `LVL`. A number gives
/// `OTHER` also where a name has it.
pub open spec fn level_named(text: Seq<char>) -> Option<LogLevel> {
    let name = upper_text(text);
    if name == "TRACE"@ {
        Some(LogLevel::TRACE)
    } else if name == "DEBUG"@ {
        Some(LogLevel::DEBUG)
    } else if name == "INFO"@ {
        Some(LogLevel::INFO)
    } else if name == "WARN"@ {
        Some(LogLevel::WARN)
    } else if name == "ERROR"@ {
        Some(LogLevel::ERROR)
    } else if name == "FATAL"@ {
        Some(LogLevel::FATAL)
    } else {
        let number = if has_prefix(name, "LVL"@) {
            name.subrange(3, name.len() as int)
        } else {
            name
        };
        match parsed_u16(number) {
            Some(code) => Some(LogLevel::OTHER(code)),
            None => None,
        }
    }
}

impl LogLevel {
    /// The number of the level.
    pub open spec fn code(&self) -> u16 {
        match *self {
            LogLevel::TRACE => 10,
            LogLevel::DEBUG => 20,
            LogLevel::INFO => 30,
            LogLevel::WARN => 40,
            LogLevel::ERROR => 50,
            LogLevel::FATAL => 60,
            LogLevel::OTHER(code) => code,
        }
    }

    /// The name of the level: one of the six names, or `LVL` and the number.
    pub open spec fn label(&self) -> Seq<char> {
        match *self {
            LogLevel::TRACE => "TRACE"@,
            LogLevel::DEBUG => "DEBUG"@,
            LogLevel::INFO => "INFO"@,
            LogLevel::WARN => "WARN"@,
            LogLevel::ERROR => "ERROR"@,
            LogLevel::FATAL => "FATAL"@,
            LogLevel::OTHER(code) => "LVL"@ + decimal(code as nat),
        }
    }

    /// The style in which the name is shown, if it has one.
    pub open spec fn style(&self) -> Option<Style> {
        match *self {
            LogLevel::TRACE => None,
            LogLevel::DEBUG => Some(Style::Yellow),
            LogLevel::INFO => Some(Style::Cyan),
            LogLevel::WARN => Some(Style::Magenta),
            LogLevel::ERROR => Some(Style::Red),
            LogLevel::FATAL => Some(Style::Reversed),
            LogLevel::OTHER(_) => None,
        }
    }

    #[inline]
    pub fn as_u16(&self) -> (code: u16)
        ensures
            code == self.code(),
    {
        match *self {
            LogLevel::TRACE => 10,
            LogLevel::DEBUG => 20,
            LogLevel::INFO => 30,
            LogLevel::WARN => 40,
            LogLevel::ERROR => 50,
            LogLevel::FATAL => 60,
            LogLevel::OTHER(code) => code,
        }
    }

    pub fn as_string(&self) -> (name: String)
        ensures
            name@ == self.label(),
    {
        match *self {
            LogLevel::TRACE => String::from_str("TRACE"),
            LogLevel::DEBUG => String::from_str("DEBUG"),
            LogLevel::INFO => String::from_str("INFO"),
            LogLevel::WARN => String::from_str("WARN"),
            LogLevel::ERROR => String::from_str("ERROR"),
            LogLevel::FATAL => String::from_str("FATAL"),
            LogLevel::OTHER(code) => {
                let mut name = String::from_str("LVL");
                push_decimal(&mut name, code as u64);
                name
            },
        }
    }

    /// The style in which the name is shown, if it has one.
    pub fn color(&self) -> (style: Option<Style>)
        ensures
            style == self.style(),
    {
        match *self {
            LogLevel::TRACE => None,
            LogLevel::DEBUG => Some(Style::Yellow),
            LogLevel::INFO => Some(Style::Cyan),
            LogLevel::WARN => Some(Style::Magenta),
            LogLevel::ERROR => Some(Style::Red),
            LogLevel::FATAL => Some(Style::Reversed),
            LogLevel::OTHER(_) => None,
        }
    }

    /// The level as it is shown on a summary line.
    pub fn display(&self, colorize: bool) -> (shown: String)
        ensures
            shown@ == display_text(*self, colorize),
    {
        let label = self.as_string();
        let width = label.as_str().unicode_len();
        let mut shown = String::new();
        if width < 5 {
            push_spaces(&mut shown, 5 - width);
        }
        match self.color() {
            Some(style) => push_painted(&mut shown, label.as_str(), style, colorize),
            None => shown.append(label.as_str()),
        }
        assert(shown@ =~= display_text(*self, colorize));
        shown
    }

    pub fn parse(level: &str) -> (parsed: Result<LogLevel, LogLevelParseError>)
        ensures
            match parsed {
                Ok(found) => level_named(level@) == Some(found),
                Err(e) => level_named(level@) is None && e.input@ == level@,
            },
    {
        let name = upper_chars(level);
        if spells(&name, "TRACE") {
            Ok(LogLevel::TRACE)
        } else if spells(&name, "DEBUG") {
            Ok(LogLevel::DEBUG)
        } else if spells(&name, "INFO") {
            Ok(LogLevel::INFO)
        } else if spells(&name, "WARN") {
            Ok(LogLevel::WARN)
        } else if spells(&name, "ERROR") {
            Ok(LogLevel::ERROR)
        } else if spells(&name, "FATAL") {
            Ok(LogLevel::FATAL)
        } else {
            let number = if begins_with_lvl(&name) {
                tail(&name, 3)
            } else {
                name
            };
            match parse_u16_chars(&number) {
                Some(code) => Ok(LogLevel::OTHER(code)),
                None => Err(LogLevelParseError { input: level.to_owned() }),
            }
        }
    }
}

fn push_spaces(out: &mut String, count: usize)
    ensures
        final(out)@ == old(out)@ + spaces(count as nat),
{
    proof {
        reveal_strlit(" ");
    }
    let mut i: usize = 0;
    assert(out@ =~= old(out)@ + spaces(0));
    while i < count
        invariant
            i <= count,
            " "@.len() == 1,
            " "@[0] == ' ',
            out@ == old(out)@ + spaces(i as nat),
        decreases count - i,
    {
        out.append(" ");
        assert(out@ =~= old(out)@ + spaces((i + 1) as nat));
        i += 1;
    }
}

/// Whether `chars` are exactly the characters of `word`.
fn spells(chars: &Vec<char>, word: &str) -> (yes: bool)
    ensures
        yes == (chars@ == word@),
{
    let wanted = crate::text::chars_of(word);
    if wanted.len() != chars.len() {
        return false;
    }
    let mut i: usize = 0;
    while i < chars.len()
        invariant
            i <= chars.len(),
            wanted.len() == chars.len(),
            wanted@ == word@,
            forall|j: int| 0 <= j < i ==> chars@[j] == word@[j],
        decreases chars.len() - i,
    {
        if chars[i] != wanted[i] {
            return false;
        }
        i += 1;
    }
    assert(chars@ =~= word@);
    true
}

/// Whether `chars` begin with `LVL`.
fn begins_with_lvl(chars: &Vec<char>) -> (yes: bool)
    ensures
        yes == has_prefix(chars@, "LVL"@),
        yes ==> chars@.len() >= 3,
{
    proof {
        reveal_strlit("LVL");
    }
    if chars.len() < 3 {
        return false;
    }
    let yes = chars[0] == 'L' && chars[1] == 'V' && chars[2] == 'L';
    proof {
        let head = chars@.subrange(0, 3);
        if yes {
            assert(head =~= "LVL"@);
        } else {
            assert(head[0] == chars@[0] && head[1] == chars@[1] && head[2] == chars@[2]);
        }
    }
    yes
}

/// The characters of `chars` from position `from` on.
fn tail(chars: &Vec<char>, from: usize) -> (rest: Vec<char>)
    requires
        from <= chars.len(),
    ensures
        rest@ == chars@.subrange(from as int, chars@.len() as int),
{
    let mut rest: Vec<char> = Vec::new();
    let mut i: usize = from;
    while i < chars.len()
        invariant
            from <= i <= chars.len(),
            rest@ == chars@.subrange(from as int, i as int),
        decreases chars.len() - i,
    {
        rest.push(chars[i]);
        assert(rest@ =~= chars@.subrange(from as int, i + 1));
        i += 1;
    }
    rest
}

impl From<u16> for LogLevel {
    fn from(code: u16) -> (level: LogLevel) {
        match code {
            10 => LogLevel::TRACE,
            20 => LogLevel::DEBUG,
            30 => LogLevel::INFO,
            40 => LogLevel::WARN,
            50 => LogLevel::ERROR,
            60 => LogLevel::FATAL,
            _ => LogLevel::OTHER(code),
        }
    }
}

impl FromSpecImpl<u16> for LogLevel {
    open spec fn obeys_from_spec() -> bool {
        true
    }

    open spec fn from_spec(code: u16) -> LogLevel {
        level_of(code)
    }
}

} // verus!
