//! Reading the list of verses: one verse to a line, the date of its
//! introduction before its reference.

use crate::date::{parsed_day_number, FMT};
use crate::entry::{entry_models, EntryModel, VerseEntry};
use vstd::prelude::*;
use vstd::string::StrSliceExecFns;
use vstd::string::StringExecFns;

verus! {

/// What stands between the date and the reference on a line of the list.
pub const FIELD_SEPARATOR: &'static str = " | ";

/// Whether `c` is white space: the characters to which Unicode gives the
/// property `White_Space`.
pub open spec fn is_white_space(c: char) -> bool {
    let code = c as u32;
    ||| 0x09 <= code <= 0x0D
    ||| code == 0x20
    ||| code == 0x85
    ||| code == 0xA0
    ||| code == 0x1680
    ||| 0x2000 <= code <= 0x200A
    ||| code == 0x2028
    ||| code == 0x2029
    ||| code == 0x202F
    ||| code == 0x205F
    ||| code == 0x3000
}

/// The number of white-space characters at the start of `text`.
pub open spec fn leading_white_space(text: Seq<char>) -> nat
    decreases text.len(),
{
    if text.len() > 0 && is_white_space(text.first()) {
        1 + leading_white_space(text.drop_first())
    } else {
        0
    }
}

/// The number of white-space characters at the end of `text`.
pub open spec fn trailing_white_space(text: Seq<char>) -> nat
    decreases text.len(),
{
    if text.len() > 0 && is_white_space(text.last()) {
        1 + trailing_white_space(text.drop_last())
    } else {
        0
    }
}

/// `text` without the white space at its start and at its end.
pub open spec fn trimmed(text: Seq<char>) -> Seq<char> {
    let rest = text.skip(leading_white_space(text) as int);
    rest.take(rest.len() - trailing_white_space(rest))
}

/// Whether the field separator stands at position `at` of `text`.
pub open spec fn separator_at(text: Seq<char>, at: int) -> bool {
    0 <= at && at + FIELD_SEPARATOR@.len() <= text.len() && text.subrange(
        at,
        at + FIELD_SEPARATOR@.len(),
    ) == FIELD_SEPARATOR@
}

/// Whether the first field separator of `text` stands at position `at`.
pub open spec fn splits_at(text: Seq<char>, at: int) -> bool {
    separator_at(text, at) && forall|before: int| 0 <= before < at ==> !separator_at(text, before)
}

/// The two fields of a line: what stands before the first field separator of
/// the trimmed line and what stands after it. `None` for a line without a
/// field separator.
pub open spec fn line_fields(line: Seq<char>) -> Option<(Seq<char>, Seq<char>)> {
    let text = trimmed(line);
    if exists|at: int| splits_at(text, at) {
        let at = choose|at: int| splits_at(text, at);
        Some((text.take(at), text.skip(at + FIELD_SEPARATOR@.len())))
    } else {
        None
    }
}

/// The entry that a line stands for: its first field is the date, in the
/// format [`FMT`], and its second field the reference. `None` for a line
/// without two fields or with a first field that is no date.
pub open spec fn entry_of_line(line: Seq<char>) -> Option<EntryModel> {
    match line_fields(line) {
        Some((date, reference)) => match parsed_day_number(date, FMT@) {
            Ok(day_number) => Some(EntryModel { date: day_number, reference }),
            Err(_) => None,
        },
        None => None,
    }
}

/// The entries that the lines stand for, in order; lines that stand for no
/// entry are passed over.
pub open spec fn entries_of_lines(lines: Seq<Seq<char>>) -> Seq<EntryModel>
    decreases lines.len(),
{
    if lines.len() == 0 {
        Seq::empty()
    } else {
        match entry_of_line(lines.last()) {
            Some(entry) => entries_of_lines(lines.drop_last()).push(entry),
            None => entries_of_lines(lines.drop_last()),
        }
    }
}

/// The contents of a sequence of lines, in the same order.
pub open spec fn line_texts(lines: Seq<String>) -> Seq<Seq<char>> {
    lines.map_values(|line: String| line@)
}

/// Whether `c` is white space.
fn white_space(c: char) -> (white: bool)
    ensures
        white == is_white_space(c),
{
    let code = c as u32;
    (0x09 <= code && code <= 0x0D) || code == 0x20 || code == 0x85 || code == 0xA0 || code
        == 0x1680 || (0x2000 <= code && code <= 0x200A) || code == 0x2028 || code == 0x2029
        || code == 0x202F || code == 0x205F || code == 0x3000
}

/// The characters of `text`, in order.
fn characters(text: &str) -> (chars: Vec<char>)
    ensures
        chars@ == text@,
{
    let mut chars: Vec<char> = Vec::new();
    for c in it: text.chars()
        invariant
            chars@ == it.seq().take(it.index() as int),
            it.seq() == text@,
    {
        chars.push(c);
    }
    chars
}

/// A text that begins with `count` white-space characters, followed by the
/// end or by another character, has `count` leading white-space characters.
proof fn lemma_leading_white_space(text: Seq<char>, count: int)
    requires
        0 <= count <= text.len(),
        forall|i: int| 0 <= i < count ==> is_white_space(#[trigger] text[i]),
        count < text.len() ==> !is_white_space(text[count]),
    ensures
        leading_white_space(text) == count,
    decreases count,
{
    if count > 0 {
        let rest = text.drop_first();
        assert forall|i: int| 0 <= i < count - 1 implies is_white_space(#[trigger] rest[i]) by {
        }
        lemma_leading_white_space(rest, count - 1);
    }
}

/// A text that ends with `count` white-space characters, preceded by the
/// start or by another character, has `count` trailing white-space characters.
proof fn lemma_trailing_white_space(text: Seq<char>, count: int)
    requires
        0 <= count <= text.len(),
        forall|i: int| text.len() - count <= i < text.len() ==> is_white_space(#[trigger] text[i]),
        count < text.len() ==> !is_white_space(text[text.len() - count - 1]),
    ensures
        trailing_white_space(text) == count,
    decreases count,
{
    if count > 0 {
        let rest = text.drop_last();
        assert forall|i: int| rest.len() - (count - 1) <= i < rest.len() implies is_white_space(
            #[trigger] rest[i],
        ) by {
        }
        lemma_trailing_white_space(rest, count - 1);
    }
}

/// The positions in `chars` between which the text without the white space at
/// its start and end stands.
fn trim_bounds(chars: &Vec<char>) -> (bounds: (usize, usize))
    ensures
        bounds.0 <= bounds.1 <= chars.len(),
        chars@.subrange(bounds.0 as int, bounds.1 as int) == trimmed(chars@),
{
    let mut start: usize = 0;
    while start < chars.len() && white_space(chars[start])
        invariant
            start <= chars.len(),
            forall|i: int| 0 <= i < start ==> is_white_space(#[trigger] chars[i]),
        decreases chars.len() - start,
    {
        start += 1;
    }
    let mut end: usize = chars.len();
    while end > start && white_space(chars[end - 1])
        invariant
            start <= end <= chars.len(),
            forall|i: int| end <= i < chars.len() ==> is_white_space(#[trigger] chars[i]),
        decreases end,
    {
        end -= 1;
    }
    proof {
        lemma_leading_white_space(chars@, start as int);
        lemma_trailing_white_space(chars@.skip(start as int), chars.len() - end);
    }
    (start, end)
}

/// The two fields of a line, as `line_fields` defines them.
pub fn split_line(line: &str) -> (fields: Option<(&str, &str)>)
    ensures
        match fields {
            Some((date, reference)) => line_fields(line@) == Some((date@, reference@)),
            None => line_fields(line@) is None,
        },
{
    let chars = characters(line);
    let (start, end) = trim_bounds(&chars);
    let ghost text = trimmed(line@);
    proof {
        reveal_strlit(" | ");
    }
    let mut at: usize = start;
    while end - at >= 3
        invariant
            start <= at <= end <= chars.len(),
            chars@ == line@,
            text == trimmed(line@),
            text == chars@.subrange(start as int, end as int),
            FIELD_SEPARATOR@ == seq![' ', '|', ' '],
            forall|before: int| 0 <= before < at - start ==> !separator_at(text, before),
        decreases end - at,
    {
        if chars[at] == ' ' && chars[at + 1] == '|' && chars[at + 2] == ' ' {
            proof {
                let found = at - start;
                assert(text.subrange(found, found + 3) =~= FIELD_SEPARATOR@);
                assert(splits_at(text, found));
            }
            let date = line.substring_char(start, at);
            let reference = line.substring_char(at + 3, end);
            return Some((date, reference));
        }
        at += 1;
    }
    None
}

/// `line` without the white space at its start and at its end.
pub fn trim_line(line: &str) -> (text: &str)
    ensures
        text@ == trimmed(line@),
{
    let chars = characters(line);
    let (start, end) = trim_bounds(&chars);
    line.substring_char(start, end)
}

impl VerseEntry {
    /// The entry that a line of the list stands for: the date, the field
    /// separator and the reference, with white space around them passed over.
    /// `None` for a line that is not made so or whose date is no date.
    pub fn from_line(line: &str) -> (entry: Option<VerseEntry>)
        ensures
            match entry {
                Some(entry) => entry_of_line(line@) == Some(entry@),
                None => entry_of_line(line@) is None,
            },
    {
        match split_line(line) {
            Some((date, reference)) => match VerseEntry::new(date, reference) {
                Ok(entry) => Some(entry),
                Err(_) => None,
            },
            None => None,
        }
    }
}

/// The entries that the lines of a list stand for, in order; lines that stand
/// for no entry are passed over.
pub fn entries_from_lines(lines: &Vec<String>) -> (entries: Vec<VerseEntry>)
    ensures
        entry_models(entries@) == entries_of_lines(line_texts(lines@)),
{
    let mut entries: Vec<VerseEntry> = Vec::new();
    let mut i: usize = 0;
    while i < lines.len()
        invariant
            i <= lines.len(),
            entry_models(entries@) == entries_of_lines(line_texts(lines@.take(i as int))),
        decreases lines.len() - i,
    {
        assert(line_texts(lines@.take(i + 1)).drop_last() =~= line_texts(lines@.take(i as int)));
        if let Some(entry) = VerseEntry::from_line(lines[i].as_str()) {
            entries.push(entry);
        }
        i += 1;
    }
    assert(lines@.take(lines.len() as int) =~= lines@);
    entries
}

/// The lines without the white space at their start and end, in order.
pub fn trimmed_lines(lines: &Vec<String>) -> (texts: Vec<String>)
    ensures
        texts.len() == lines.len(),
        forall|i: int| 0 <= i < lines.len() ==> (#[trigger] texts[i])@ == trimmed(lines[i]@),
{
    let mut texts: Vec<String> = Vec::with_capacity(lines.len());
    let mut i: usize = 0;
    while i < lines.len()
        invariant
            i <= lines.len(),
            texts.len() == i,
            forall|k: int| 0 <= k < i ==> (#[trigger] texts[k])@ == trimmed(lines[k]@),
        decreases lines.len() - i,
    {
        texts.push(String::from_str(trim_line(lines[i].as_str())));
        i += 1;
    }
    texts
}

} // verus!
