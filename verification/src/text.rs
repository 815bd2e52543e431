//! Small verified text primitives shared by the renderers: character scans,
//! line splitting, decimal numbers.
use vstd::prelude::*;

verus! {

/// The characters that count as blank space: those that Unicode lists as
/// white space.
pub open spec fn is_space_char(c: char) -> bool {
    ('\u{9}' <= c && c <= '\u{d}') || c == ' ' || c == '\u{85}' || c == '\u{a0}' || c
        == '\u{1680}' || ('\u{2000}' <= c && c <= '\u{200a}') || c == '\u{2028}' || c
        == '\u{2029}' || c == '\u{202f}' || c == '\u{205f}' || c == '\u{3000}'
}

/// A text is blank when it holds nothing but blank space.
pub open spec fn is_blank(text: Seq<char>) -> bool {
    forall|i: int| 0 <= i < text.len() ==> is_space_char(#[trigger] text[i])
}

/// `text` starts with `prefix`.
pub open spec fn has_prefix(text: Seq<char>, prefix: Seq<char>) -> bool {
    prefix.len() <= text.len() && text.subrange(0, prefix.len() as int) == prefix
}

/// `needle` occurs in `text` at position `at`.
pub open spec fn occurs_at(text: Seq<char>, needle: Seq<char>, at: int) -> bool {
    0 <= at && at + needle.len() <= text.len() && text.subrange(at, at + needle.len()) == needle
}

/// The position of the first occurrence of `needle` in `text` at or after
/// `from`, if there is one.
pub open spec fn first_occurrence(text: Seq<char>, needle: Seq<char>, from: int) -> Option<int>
    decreases text.len() - from,
{
    if from < 0 || from + needle.len() > text.len() {
        None
    } else if occurs_at(text, needle, from) {
        Some(from)
    } else if from >= text.len() {
        None
    } else {
        first_occurrence(text, needle, from + 1)
    }
}

/// A line that ended in a line feed loses one carriage return before it.
pub open spec fn strip_cr(line: Seq<char>) -> Seq<char> {
    if line.len() > 0 && line.last() == '\r' {
        line.drop_last()
    } else {
        line
    }
}

/// The lines of `text` that remain when the scan stands at `at` inside a
/// line that began at `start`.
pub open spec fn lines_scan(text: Seq<char>, start: int, at: int) -> Seq<Seq<char>>
    decreases text.len() - at,
{
    if at < 0 || start < 0 || start > at {
        Seq::empty()
    } else if at >= text.len() {
        if start < text.len() {
            seq![text.subrange(start, text.len() as int)]
        } else {
            Seq::empty()
        }
    } else if text[at] == '\n' {
        seq![strip_cr(text.subrange(start, at))] + lines_scan(text, at + 1, at + 1)
    } else {
        lines_scan(text, start, at + 1)
    }
}

/// The lines of `text`: it is cut at every line feed, a carriage return
/// right before a line feed goes with it, and a line feed at the very end
/// opens no further line. The empty text has no line.
pub open spec fn lines_of(text: Seq<char>) -> Seq<Seq<char>> {
    lines_scan(text, 0, 0)
}

/// The texts of a sequence of strings.
pub open spec fn texts(strings: Seq<String>) -> Seq<Seq<char>> {
    Seq::new(strings.len(), |i: int| strings[i]@)
}

/// The indentation of everything below the summary line.
pub open spec fn indent() -> Seq<char> {
    "    "@
}

/// The first `upto` lines, each indented and closed by a line feed.
pub open spec fn indented(lines: Seq<Seq<char>>, upto: int) -> Seq<char>
    decreases upto,
{
    if upto <= 0 || upto > lines.len() {
        Seq::empty()
    } else {
        indented(lines, upto - 1) + indent() + lines[upto - 1] + "\n"@
    }
}

/// The lines of `text`, each indented and closed by a line feed.
pub open spec fn indented_text(text: Seq<char>) -> Seq<char> {
    indented(lines_of(text), lines_of(text).len() as int)
}

/// The first `upto` lines without the blank ones, each indented and closed
/// by a line feed.
pub open spec fn indented_nonblank(lines: Seq<Seq<char>>, upto: int) -> Seq<char>
    decreases upto,
{
    if upto <= 0 || upto > lines.len() {
        Seq::empty()
    } else if is_blank(lines[upto - 1]) {
        indented_nonblank(lines, upto - 1)
    } else {
        indented_nonblank(lines, upto - 1) + indent() + lines[upto - 1] + "\n"@
    }
}

/// The lines of `text` without the blank ones, each indented and closed by
/// a line feed.
pub open spec fn indented_nonblank_text(text: Seq<char>) -> Seq<char> {
    indented_nonblank(lines_of(text), lines_of(text).len() as int)
}

/// The first `upto` lines without the empty ones, each indented and closed
/// by a line feed.
pub open spec fn indented_nonempty(lines: Seq<Seq<char>>, upto: int) -> Seq<char>
    decreases upto,
{
    if upto <= 0 || upto > lines.len() {
        Seq::empty()
    } else if lines[upto - 1].len() == 0 {
        indented_nonempty(lines, upto - 1)
    } else {
        indented_nonempty(lines, upto - 1) + indent() + lines[upto - 1] + "\n"@
    }
}

/// The lines of `text` without the empty ones, each indented and closed by
/// a line feed.
pub open spec fn indented_nonempty_text(text: Seq<char>) -> Seq<char> {
    indented_nonempty(lines_of(text), lines_of(text).len() as int)
}

/// The first `upto` texts, with `separator` between each two.
pub open spec fn joined_with(parts: Seq<Seq<char>>, upto: int, separator: Seq<char>) -> Seq<char>
    decreases upto,
{
    if upto <= 0 || upto > parts.len() {
        Seq::empty()
    } else if upto == 1 {
        parts[0]
    } else {
        joined_with(parts, upto - 1, separator) + separator + parts[upto - 1]
    }
}

/// The decimal digit for `d`, which is below ten.
pub open spec fn digit_char(d: nat) -> char {
    if d == 0 {
        '0'
    } else if d == 1 {
        '1'
    } else if d == 2 {
        '2'
    } else if d == 3 {
        '3'
    } else if d == 4 {
        '4'
    } else if d == 5 {
        '5'
    } else if d == 6 {
        '6'
    } else if d == 7 {
        '7'
    } else if d == 8 {
        '8'
    } else {
        '9'
    }
}

/// `n` written in decimal, without sign or leading zeros.
pub open spec fn decimal(n: nat) -> Seq<char>
    decreases n,
{
    if n < 10 {
        seq![digit_char(n)]
    } else {
        decimal(n / 10).push(digit_char(n % 10))
    }
}

/// `n` written in decimal, with a minus sign when it is negative.
pub open spec fn signed_decimal(n: int) -> Seq<char> {
    if n < 0 {
        seq!['-'] + decimal((-n) as nat)
    } else {
        decimal(n as nat)
    }
}

/// The value of a decimal digit, if `c` is one.
pub open spec fn digit_value(c: char) -> Option<nat> {
    if c == '0' {
        Some(0)
    } else if c == '1' {
        Some(1)
    } else if c == '2' {
        Some(2)
    } else if c == '3' {
        Some(3)
    } else if c == '4' {
        Some(4)
    } else if c == '5' {
        Some(5)
    } else if c == '6' {
        Some(6)
    } else if c == '7' {
        Some(7)
    } else if c == '8' {
        Some(8)
    } else if c == '9' {
        Some(9)
    } else {
        None
    }
}

/// The number that the digits `text[0..upto]` spell, if they are all digits.
pub open spec fn digits_value(text: Seq<char>, upto: int) -> Option<nat>
    decreases upto,
{
    if upto <= 0 || upto > text.len() {
        Some(0)
    } else {
        match (digits_value(text, upto - 1), digit_value(text[upto - 1])) {
            (Some(high), Some(low)) => Some(high * 10 + low),
            _ => None,
        }
    }
}

/// The 16-bit number that `text` spells: an optional plus sign, then at
/// least one decimal digit, the whole no larger than 65535.
pub open spec fn parsed_u16(text: Seq<char>) -> Option<u16> {
    let digits = if text.len() > 0 && text[0] == '+' {
        text.subrange(1, text.len() as int)
    } else {
        text
    };
    if digits.len() == 0 {
        None
    } else {
        match digits_value(digits, digits.len() as int) {
            Some(value) => if value <= 65535 {
                Some(value as u16)
            } else {
                None
            },
            None => None,
        }
    }
}

/// The characters of `text`, in order.
pub fn chars_of(text: &str) -> (chars: Vec<char>)
    ensures
        chars@ == text@,
{
    let mut chars: Vec<char> = Vec::new();
    for c in it: text.chars()
        invariant
            it.seq() == text@,
            chars@ == text@.subrange(0, it.index()),
    {
        chars.push(c);
    }
    assert(chars@ =~= text@);
    chars
}

/// Whether `c` occurs in `text`.
pub fn has_char(text: &str, c: char) -> (found: bool)
    ensures
        found == text@.contains(c),
{
    let chars = chars_of(text);
    let mut i: usize = 0;
    while i < chars.len()
        invariant
            i <= chars.len(),
            chars@ == text@,
            forall|j: int| 0 <= j < i ==> text@[j] != c,
        decreases chars.len() - i,
    {
        if chars[i] == c {
            return true;
        }
        i += 1;
    }
    false
}

/// Whether the two texts are the same.
pub fn same_text(a: &str, b: &str) -> (same: bool)
    ensures
        same == (a@ == b@),
{
    let left = chars_of(a);
    let right = chars_of(b);
    if left.len() != right.len() {
        return false;
    }
    let mut i: usize = 0;
    while i < left.len()
        invariant
            i <= left.len(),
            left.len() == right.len(),
            left@ == a@,
            right@ == b@,
            forall|j: int| 0 <= j < i ==> a@[j] == b@[j],
        decreases left.len() - i,
    {
        if left[i] != right[i] {
            return false;
        }
        i += 1;
    }
    assert(a@ =~= b@);
    true
}

/// Whether `c` is blank space.
pub fn space_char(c: char) -> (blank: bool)
    ensures
        blank == is_space_char(c),
{
    ('\u{9}' <= c && c <= '\u{d}') || c == ' ' || c == '\u{85}' || c == '\u{a0}' || c
        == '\u{1680}' || ('\u{2000}' <= c && c <= '\u{200a}') || c == '\u{2028}' || c
        == '\u{2029}' || c == '\u{202f}' || c == '\u{205f}' || c == '\u{3000}'
}

/// Whether `text` holds nothing but blank space.
pub fn blank(text: &str) -> (all_blank: bool)
    ensures
        all_blank == is_blank(text@),
{
    let chars = chars_of(text);
    let mut i: usize = 0;
    while i < chars.len()
        invariant
            i <= chars.len(),
            chars@ == text@,
            forall|j: int| 0 <= j < i ==> is_space_char(#[trigger] text@[j]),
        decreases chars.len() - i,
    {
        if !space_char(chars[i]) {
            return false;
        }
        i += 1;
    }
    true
}

/// Whether `needle` stands in `text` at position `at`.
fn matches_at(text: &Vec<char>, needle: &Vec<char>, at: usize) -> (hit: bool)
    requires
        at + needle.len() <= text.len(),
    ensures
        hit == occurs_at(text@, needle@, at as int),
{
    let mut k: usize = 0;
    while k < needle.len()
        invariant
            k <= needle.len(),
            at + needle.len() <= text.len(),
            forall|j: int| 0 <= j < k ==> text@[at + j] == needle@[j],
        decreases needle.len() - k,
    {
        if text[at + k] != needle[k] {
            proof {
                let window = text@.subrange(at as int, at + needle.len());
                assert(window[k as int] != needle@[k as int]);
            }
            return false;
        }
        k += 1;
    }
    assert(text@.subrange(at as int, at + needle.len()) =~= needle@);
    true
}

/// Whether `text` starts with `prefix`.
pub fn starts_with(text: &str, prefix: &str) -> (yes: bool)
    ensures
        yes == has_prefix(text@, prefix@),
{
    let chars = chars_of(text);
    let wanted = chars_of(prefix);
    if wanted.len() > chars.len() {
        return false;
    }
    matches_at(&chars, &wanted, 0)
}

/// The position of the first occurrence of `needle` in `text`.
pub fn find(text: &str, needle: &str) -> (found: Option<usize>)
    ensures
        match found {
            Some(at) => first_occurrence(text@, needle@, 0) == Some(at as int) && occurs_at(
                text@,
                needle@,
                at as int,
            ),
            None => first_occurrence(text@, needle@, 0) is None,
        },
{
    let chars = chars_of(text);
    let wanted = chars_of(needle);
    if wanted.len() > chars.len() {
        return None;
    }
    let last: usize = chars.len() - wanted.len();
    let mut at: usize = 0;
    loop
        invariant
            at <= last,
            last == chars.len() - wanted.len(),
            chars@ == text@,
            wanted@ == needle@,
            first_occurrence(text@, needle@, at as int) == first_occurrence(text@, needle@, 0),
        decreases last - at,
    {
        if matches_at(&chars, &wanted, at) {
            return Some(at);
        }
        if at == last {
            assert(first_occurrence(text@, needle@, at + 1) is None);
            return None;
        }
        at += 1;
    }
}

/// Cuts `text` into its lines.
pub fn split_lines(text: &str) -> (lines: Vec<String>)
    ensures
        texts(lines@) == lines_of(text@),
{
    let chars = chars_of(text);
    let mut lines: Vec<String> = Vec::new();
    let mut start: usize = 0;
    let mut at: usize = 0;
    let ghost all = lines_of(text@);
    while at < chars.len()
        invariant
            start <= at <= chars.len(),
            chars@ == text@,
            all == lines_of(text@),
            all.len() == lines@.len() + lines_scan(text@, start as int, at as int).len(),
            forall|i: int| 0 <= i < lines@.len() ==> (#[trigger] lines@[i])@ == all[i],
            forall|i: int|
                0 <= i < lines_scan(text@, start as int, at as int).len() ==> all[lines@.len() + i]
                    == #[trigger] lines_scan(text@, start as int, at as int)[i],
        decreases chars.len() - at,
    {
        if chars[at] == '\n' {
            let end: usize = if at > start && chars[at - 1] == '\r' {
                at - 1
            } else {
                at
            };
            let line = text.substring_char(start, end).to_owned();
            proof {
                let rest = lines_scan(text@, at + 1, at + 1);
                let here = lines_scan(text@, start as int, at as int);
                assert(here == seq![strip_cr(text@.subrange(start as int, at as int))] + rest);
                assert(line@ =~= strip_cr(text@.subrange(start as int, at as int)));
                assert(here[0] == line@);
                assert forall|i: int| 0 <= i < rest.len() implies all[lines@.len() + 1 + i]
                    == #[trigger] rest[i] by {
                    assert(here[i + 1] == rest[i]);
                }
            }
            lines.push(line);
            start = at + 1;
        }
        at += 1;
    }
    if start < chars.len() {
        let line = text.substring_char(start, chars.len()).to_owned();
        proof {
            let here = lines_scan(text@, start as int, at as int);
            assert(here == seq![text@.subrange(start as int, text@.len() as int)]);
            assert(here[0] == line@);
        }
        lines.push(line);
    }
    assert(texts(lines@) =~= lines_of(text@));
    lines
}

/// Appends the lines of `text`, each indented and closed by a line feed.
pub fn push_indented(out: &mut String, text: &str)
    ensures
        final(out)@ == old(out)@ + indented_text(text@),
{
    let lines = split_lines(text);
    let mut i: usize = 0;
    while i < lines.len()
        invariant
            i <= lines.len(),
            texts(lines@) == lines_of(text@),
            out@ == old(out)@ + indented(lines_of(text@), i as int),
        decreases lines.len() - i,
    {
        let ghost before = out@;
        out.append("    ");
        out.append(lines[i].as_str());
        out.append("\n");
        proof {
            assert(texts(lines@)[i as int] == lines@[i as int]@);
            assert(out@ =~= old(out)@ + indented(lines_of(text@), i + 1));
        }
        i += 1;
    }
}

/// Appends the lines of `text` that are not blank, each indented and
/// closed by a line feed.
pub fn push_indented_nonblank(out: &mut String, text: &str)
    ensures
        final(out)@ == old(out)@ + indented_nonblank_text(text@),
{
    let lines = split_lines(text);
    let mut i: usize = 0;
    while i < lines.len()
        invariant
            i <= lines.len(),
            texts(lines@) == lines_of(text@),
            out@ == old(out)@ + indented_nonblank(lines_of(text@), i as int),
        decreases lines.len() - i,
    {
        proof {
            assert(texts(lines@)[i as int] == lines@[i as int]@);
        }
        if !blank(lines[i].as_str()) {
            out.append("    ");
            out.append(lines[i].as_str());
            out.append("\n");
            proof {
                assert(out@ =~= old(out)@ + indented_nonblank(lines_of(text@), i + 1));
            }
        }
        i += 1;
    }
}

/// Appends the lines of `text` that are not empty, each indented and
/// closed by a line feed.
pub fn push_indented_nonempty(out: &mut String, text: &str)
    ensures
        final(out)@ == old(out)@ + indented_nonempty_text(text@),
{
    let lines = split_lines(text);
    let mut i: usize = 0;
    while i < lines.len()
        invariant
            i <= lines.len(),
            texts(lines@) == lines_of(text@),
            out@ == old(out)@ + indented_nonempty(lines_of(text@), i as int),
        decreases lines.len() - i,
    {
        proof {
            assert(texts(lines@)[i as int] == lines@[i as int]@);
        }
        if !lines[i].as_str().is_empty() {
            out.append("    ");
            out.append(lines[i].as_str());
            out.append("\n");
            proof {
                assert(out@ =~= old(out)@ + indented_nonempty(lines_of(text@), i + 1));
            }
        }
        i += 1;
    }
}

/// Appends the texts of `parts`, with `separator` between each two.
pub fn push_joined(out: &mut String, parts: &Vec<String>, separator: &str)
    ensures
        final(out)@ == old(out)@ + joined_with(texts(parts@), parts@.len() as int, separator@),
{
    let mut i: usize = 0;
    while i < parts.len()
        invariant
            i <= parts.len(),
            out@ == old(out)@ + joined_with(texts(parts@), i as int, separator@),
        decreases parts.len() - i,
    {
        if i > 0 {
            out.append(separator);
        }
        out.append(parts[i].as_str());
        proof {
            assert(texts(parts@)[i as int] == parts@[i as int]@);
            assert(out@ =~= old(out)@ + joined_with(texts(parts@), i + 1, separator@));
        }
        i += 1;
    }
}

/// Appends the decimal digit for `d`.
fn push_digit(out: &mut String, d: u64)
    requires
        d < 10,
    ensures
        final(out)@ == old(out)@.push(digit_char(d as nat)),
{
    proof {
        reveal_strlit("0");
        reveal_strlit("1");
        reveal_strlit("2");
        reveal_strlit("3");
        reveal_strlit("4");
        reveal_strlit("5");
        reveal_strlit("6");
        reveal_strlit("7");
        reveal_strlit("8");
        reveal_strlit("9");
    }
    let digit = if d == 0 {
        "0"
    } else if d == 1 {
        "1"
    } else if d == 2 {
        "2"
    } else if d == 3 {
        "3"
    } else if d == 4 {
        "4"
    } else if d == 5 {
        "5"
    } else if d == 6 {
        "6"
    } else if d == 7 {
        "7"
    } else if d == 8 {
        "8"
    } else {
        "9"
    };
    assert(digit@ =~= seq![digit_char(d as nat)]);
    out.append(digit);
    assert(out@ =~= old(out)@.push(digit_char(d as nat)));
}

/// Appends `n` in decimal.
pub fn push_decimal(out: &mut String, n: u64)
    ensures
        final(out)@ == old(out)@ + decimal(n as nat),
    decreases n,
{
    if n >= 10 {
        push_decimal(out, n / 10);
    }
    push_digit(out, n % 10);
    assert(out@ =~= old(out)@ + decimal(n as nat));
}

/// Appends `n` in decimal, with its sign when negative.
pub fn push_signed_decimal(out: &mut String, n: i64)
    ensures
        final(out)@ == old(out)@ + signed_decimal(n as int),
{
    if n < 0 {
        proof {
            reveal_strlit("-");
        }
        out.append("-");
        let magnitude: u64 = (-(n + 1)) as u64 + 1;
        push_decimal(out, magnitude);
        assert(out@ =~= old(out)@ + signed_decimal(n as int));
    } else {
        push_decimal(out, n as u64);
    }
}

/// The value of the decimal digit `c`.
fn digit_of(c: char) -> (value: Option<u32>)
    ensures
        match value {
            Some(d) => digit_value(c) == Some(d as nat),
            None => digit_value(c) is None,
        },
{
    if c == '0' {
        Some(0)
    } else if c == '1' {
        Some(1)
    } else if c == '2' {
        Some(2)
    } else if c == '3' {
        Some(3)
    } else if c == '4' {
        Some(4)
    } else if c == '5' {
        Some(5)
    } else if c == '6' {
        Some(6)
    } else if c == '7' {
        Some(7)
    } else if c == '8' {
        Some(8)
    } else if c == '9' {
        Some(9)
    } else {
        None
    }
}

/// Once a prefix of the digits spells more than 65535, so does the whole.
proof fn lemma_digits_value_grows(text: Seq<char>, from: int, upto: int)
    requires
        0 <= from <= upto <= text.len(),
        digits_value(text, upto) is Some,
    ensures
        digits_value(text, from) is Some,
        digits_value(text, from)->0 <= digits_value(text, upto)->0,
    decreases upto - from,
{
    if from < upto {
        lemma_digits_value_grows(text, from, upto - 1);
    }
}

/// Reads `chars` as an unsigned 16-bit decimal number.
pub fn parse_u16_chars(chars: &Vec<char>) -> (value: Option<u16>)
    ensures
        value == parsed_u16(chars@),
{
    let first: usize = if chars.len() > 0 && chars[0] == '+' {
        1
    } else {
        0
    };
    if first == chars.len() {
        return None;
    }
    let ghost digits = chars@.subrange(first as int, chars@.len() as int);
    proof {
        if first == 0 {
            assert(digits =~= chars@);
        }
    }
    let mut total: u32 = 0;
    let mut i: usize = first;
    while i < chars.len()
        invariant
            first <= i <= chars.len(),
            digits == chars@.subrange(first as int, chars@.len() as int),
            digits == if chars@.len() > 0 && chars@[0] == '+' {
                chars@.subrange(1, chars@.len() as int)
            } else {
                chars@
            },
            digits_value(digits, i - first) == Some(total as nat),
            total <= 65535,
        decreases chars.len() - i,
    {
        assert(digits[i - first] == chars@[i as int]);
        match digit_of(chars[i]) {
            Some(d) => {
                let next: u32 = total * 10 + d;
                assert(digits_value(digits, i - first + 1) == Some(next as nat));
                if next > 65535 {
                    proof {
                        if digits_value(digits, digits.len() as int) is Some {
                            lemma_digits_value_grows(digits, i - first + 1, digits.len() as int);
                        }
                    }
                    return None;
                }
                total = next;
            },
            None => {
                proof {
                    assert(digits_value(digits, i - first + 1) is None);
                    if digits_value(digits, digits.len() as int) is Some {
                        lemma_digits_value_grows(digits, i - first + 1, digits.len() as int);
                    }
                }
                return None;
            },
        }
        i += 1;
    }
    Some(total as u16)
}

/// Reads `text` as an unsigned 16-bit decimal number.
pub fn parse_u16(text: &str) -> (value: Option<u16>)
    ensures
        value == parsed_u16(text@),
{
    let chars = chars_of(text);
    parse_u16_chars(&chars)
}

/// The capital of an ASCII small letter; any other character is itself.
pub open spec fn upper(c: char) -> char {
    if 'a' <= c && c <= 'z' {
        ((c as u8) - 32) as char
    } else {
        c
    }
}

/// The text with its ASCII small letters made capital.
pub open spec fn upper_text(text: Seq<char>) -> Seq<char> {
    Seq::new(text.len(), |i: int| upper(text[i]))
}

/// The capital of an ASCII small letter; any other character is itself.
pub fn to_upper(c: char) -> (capital: char)
    ensures
        capital == upper(c),
{
    if 'a' <= c && c <= 'z' {
        ((c as u8) - 32) as char
    } else {
        c
    }
}

/// The characters of `text` with the ASCII small letters made capital.
pub fn upper_chars(text: &str) -> (chars: Vec<char>)
    ensures
        chars@ == upper_text(text@),
{
    let plain = chars_of(text);
    let mut chars: Vec<char> = Vec::new();
    let mut i: usize = 0;
    while i < plain.len()
        invariant
            i <= plain.len(),
            plain@ == text@,
            chars@.len() == i,
            forall|j: int| 0 <= j < i ==> chars@[j] == upper(text@[j]),
        decreases plain.len() - i,
    {
        chars.push(to_upper(plain[i]));
        i += 1;
    }
    assert(chars@ =~= upper_text(text@));
    chars
}

} // verus!
