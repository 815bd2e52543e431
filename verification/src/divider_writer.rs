//! The sink that puts a divider line between two sections that both wrote
//! something.
use vstd::prelude::*;

verus! {

/// The line that stands between two sections.
pub open spec fn divider_line() -> Seq<char> {
    "    --\n"@
}

/// What a `DividerWriter` holds: the text written so far and its two flags.
pub struct WriterState {
    pub text: Seq<char>,
    pub divider_written: bool,
    pub has_been_written: bool,
}

/// The state after `text` has been written. An empty text changes nothing;
/// any other text is written after the divider line that is still owed.
pub open spec fn after_write(state: WriterState, text: Seq<char>) -> WriterState {
    if text.len() == 0 {
        state
    } else {
        WriterState {
            text: if state.divider_written {
                state.text + text
            } else {
                state.text + divider_line() + text
            },
            divider_written: true,
            has_been_written: true,
        }
    }
}

/// A text sink that owes a divider line until the next text arrives.
pub struct DividerWriter {
    pub inner: String,
    pub divider_written: bool,
    pub has_been_written: bool,
}

impl View for DividerWriter {
    type V = WriterState;

    open spec fn view(&self) -> WriterState {
        WriterState {
            text: self.inner@,
            divider_written: self.divider_written,
            has_been_written: self.has_been_written,
        }
    }
}

impl DividerWriter {
    pub fn new(inner: String, divider_written: bool) -> (writer: DividerWriter)
        ensures
            writer@ == (WriterState { text: inner@, divider_written, has_been_written: false }),
    {
        DividerWriter { inner, divider_written, has_been_written: false }
    }

    /// Marks the instance as having not yet written a divider.
    pub fn mark_divider_as_unwritten(&mut self)
        ensures
            final(self)@ == (WriterState { divider_written: false, ..old(self)@ }),
    {
        self.divider_written = false;
    }

    /// Writes the divider line and marks the divider as written.
    fn write_divider(&mut self)
        ensures
            final(self)@ == (WriterState {
                text: old(self)@.text + divider_line(),
                divider_written: true,
                ..old(self)@
            }),
    {
        self.inner.append("    --\n");
        self.divider_written = true;
    }

    /// Writes `text`, after the divider line if one is owed.
    pub fn write(&mut self, text: &str)
        ensures
            final(self)@ == after_write(old(self)@, text@),
    {
        if text.unicode_len() == 0 {
            return ;
        }
        if !self.has_been_written {
            self.has_been_written = true;
        }
        if !self.divider_written {
            self.write_divider();
        }
        self.inner.append(text);
    }

    /// Hands back everything that was written.
    pub fn into_inner(self) -> (text: String)
        ensures
            text@ == self@.text,
    {
        self.inner
    }
}

} // verus!

verus! {

/// The state when a section that wrote `text` is over: the text is
/// written, and once anything has been written a divider line is owed
/// again.
pub open spec fn after_section(state: WriterState, text: Seq<char>) -> WriterState {
    let written = after_write(state, text);
    if written.has_been_written {
        WriterState { divider_written: false, ..written }
    } else {
        written
    }
}

/// The state after the first `upto` sections.
pub open spec fn after_sections(state: WriterState, sections: Seq<Seq<char>>, upto: int)
    -> WriterState
    decreases upto,
{
    if upto <= 0 || upto > sections.len() {
        state
    } else {
        after_section(after_sections(state, sections, upto - 1), sections[upto - 1])
    }
}

/// The state in which the sections of a record begin: nothing written, no
/// divider line owed.
pub open spec fn start_state() -> WriterState {
    WriterState { text: Seq::empty(), divider_written: true, has_been_written: false }
}

/// How many of the first `upto` sections are not empty.
pub open spec fn written_count(sections: Seq<Seq<char>>, upto: int) -> nat
    decreases upto,
{
    if upto <= 0 || upto > sections.len() {
        0
    } else if sections[upto - 1].len() == 0 {
        written_count(sections, upto - 1)
    } else {
        written_count(sections, upto - 1) + 1
    }
}

/// The characters of the first `upto` sections together.
pub open spec fn written_len(sections: Seq<Seq<char>>, upto: int) -> nat
    decreases upto,
{
    if upto <= 0 || upto > sections.len() {
        0
    } else {
        written_len(sections, upto - 1) + sections[upto - 1].len()
    }
}

/// The first `upto` sections as one text: the empty ones left out, and a
/// divider line before every other one that is not the first of them.
pub open spec fn joined(sections: Seq<Seq<char>>, upto: int) -> Seq<char>
    decreases upto,
{
    if upto <= 0 || upto > sections.len() {
        Seq::empty()
    } else if sections[upto - 1].len() == 0 {
        joined(sections, upto - 1)
    } else if written_count(sections, upto - 1) == 0 {
        sections[upto - 1]
    } else {
        joined(sections, upto - 1) + divider_line() + sections[upto - 1]
    }
}

/// How many divider lines `joined` puts between the first `upto` sections.
pub open spec fn divider_count(sections: Seq<Seq<char>>, upto: int) -> nat
    decreases upto,
{
    if upto <= 0 || upto > sections.len() {
        0
    } else if sections[upto - 1].len() == 0 || written_count(sections, upto - 1) == 0 {
        divider_count(sections, upto - 1)
    } else {
        divider_count(sections, upto - 1) + 1
    }
}

/// Sections that run one after the other through a `DividerWriter` leave
/// the text of `joined`: a divider line stands between two sections that
/// wrote, and nowhere else.
pub proof fn lemma_sections_are_joined(sections: Seq<Seq<char>>, upto: int)
    requires
        0 <= upto <= sections.len(),
    ensures
        after_sections(start_state(), sections, upto).text == joined(sections, upto),
        after_sections(start_state(), sections, upto).has_been_written == (written_count(
            sections,
            upto,
        ) > 0),
        after_sections(start_state(), sections, upto).divider_written == (written_count(
            sections,
            upto,
        ) == 0),
        written_count(sections, upto) == 0 ==> joined(sections, upto).len() == 0,
    decreases upto,
{
    if upto > 0 {
        lemma_sections_are_joined(sections, upto - 1);
        let before = after_sections(start_state(), sections, upto - 1);
        let last = sections[upto - 1];
        if last.len() > 0 && written_count(sections, upto - 1) == 0 {
            assert(before.text + last =~= last);
        }
    }
}

/// Of N sections of which K wrote something, the text holds K - 1 divider
/// lines, and none where K is zero: it is as long as the sections
/// together and that many divider lines.
pub proof fn lemma_divider_count(sections: Seq<Seq<char>>, upto: int)
    requires
        0 <= upto <= sections.len(),
    ensures
        divider_count(sections, upto) == if written_count(sections, upto) == 0 {
            0
        } else {
            written_count(sections, upto) - 1
        },
        joined(sections, upto).len() == written_len(sections, upto) + divider_count(
            sections,
            upto,
        ) * divider_line().len(),
        written_count(sections, upto) == 0 ==> written_len(sections, upto) == 0,
    decreases upto,
{
    if upto > 0 {
        lemma_divider_count(sections, upto - 1);
        lemma_sections_are_joined(sections, upto - 1);
        let d = divider_count(sections, upto - 1);
        let w = divider_line().len();
        assert((d + 1) * w == d * w + w) by (nonlinear_arith);
        assert(0 * w == 0) by (nonlinear_arith);
    }
}

/// A divider line never leads and never trails: the text begins with the
/// first section that wrote and ends with the last one.
pub proof fn lemma_dividers_stand_between(sections: Seq<Seq<char>>, upto: int)
    requires
        0 <= upto <= sections.len(),
        written_count(sections, upto) > 0,
    ensures
        exists|first: int, last: int|
            0 <= first <= last < upto && sections[first].len() > 0 && sections[last].len() > 0
                && written_count(sections, first) == 0 && #[trigger] is_framed(
                joined(sections, upto),
                sections[first],
                sections[last],
            ),
    decreases upto,
{
    let text = joined(sections, upto);
    let tail = sections[upto - 1];
    if tail.len() == 0 {
        lemma_dividers_stand_between(sections, upto - 1);
        let (first, last) = choose|first: int, last: int|
            0 <= first <= last < upto - 1 && sections[first].len() > 0 && sections[last].len() > 0
                && written_count(sections, first) == 0 && #[trigger] is_framed(
                joined(sections, upto - 1),
                sections[first],
                sections[last],
            );
        assert(is_framed(text, sections[first], sections[last]));
    } else if written_count(sections, upto - 1) == 0 {
        assert(text.subrange(0, tail.len() as int) =~= tail);
        assert(is_framed(text, sections[upto - 1], sections[upto - 1]));
    } else {
        lemma_dividers_stand_between(sections, upto - 1);
        let (first, last) = choose|first: int, last: int|
            0 <= first <= last < upto - 1 && sections[first].len() > 0 && sections[last].len() > 0
                && written_count(sections, first) == 0 && #[trigger] is_framed(
                joined(sections, upto - 1),
                sections[first],
                sections[last],
            );
        let head = joined(sections, upto - 1);
        assert(text.subrange(0, sections[first].len() as int) =~= head.subrange(
            0,
            sections[first].len() as int,
        ));
        assert(text.subrange(text.len() - tail.len(), text.len() as int) =~= tail);
        assert(is_framed(text, sections[first], sections[upto - 1]));
    }
}

/// `text` begins with `head` and ends with `tail`.
pub open spec fn is_framed(text: Seq<char>, head: Seq<char>, tail: Seq<char>) -> bool {
    head.len() <= text.len() && tail.len() <= text.len() && text.subrange(0, head.len() as int)
        == head && text.subrange(text.len() - tail.len(), text.len() as int) == tail
}

impl DividerWriter {
    /// Writes the sections one after the other: each is written, and when
    /// anything has been written a divider line is owed again.
    pub fn write_sections(&mut self, sections: &Vec<String>)
        ensures
            final(self)@ == after_sections(
                old(self)@,
                crate::text::texts(sections@),
                sections@.len() as int,
            ),
    {
        let mut i: usize = 0;
        while i < sections.len()
            invariant
                i <= sections.len(),
                self@ == after_sections(old(self)@, crate::text::texts(sections@), i as int),
            decreases sections.len() - i,
        {
            self.write(sections[i].as_str());
            if self.has_been_written {
                self.mark_divider_as_unwritten();
            }
            proof {
                assert(crate::text::texts(sections@)[i as int] == sections@[i as int]@);
            }
            i += 1;
        }
    }
}

/// The sections as one text, with a divider line between each two that are
/// not empty.
pub fn join_sections(sections: &Vec<String>) -> (text: String)
    ensures
        text@ == joined(crate::text::texts(sections@), sections@.len() as int),
{
    let mut writer = DividerWriter::new(String::new(), true);
    writer.write_sections(sections);
    proof {
        lemma_sections_are_joined(crate::text::texts(sections@), sections@.len() as int);
    }
    writer.into_inner()
}

} // verus!
