//! Trace lines reduced to the fields that two logs are compared on.

use vstd::prelude::*;
use vstd::std_specs::cmp::PartialEqSpecImpl;
use vstd::string::StrSliceExecFns;
use crate::text::{chars_of, word_ranges, words};

verus! {

/// The fields of a trace line that two logs are compared on: the program
/// counter and the five register fields, each as it is written.
#[derive(Clone, Copy, Debug)]
pub struct Logline<'a> {
    pub prog_ctr: &'a str,
    pub accumulator: &'a str,
    pub x_reg: &'a str,
    pub y_reg: &'a str,
    pub status_reg: &'a str,
    pub stack_ptr: &'a str,
}

/// The six fields of a trace line, as plain values.
pub struct LoglineFields {
    pub prog_ctr: Seq<char>,
    pub accumulator: Seq<char>,
    pub x_reg: Seq<char>,
    pub y_reg: Seq<char>,
    pub status_reg: Seq<char>,
    pub stack_ptr: Seq<char>,
}

impl<'a> View for Logline<'a> {
    type V = LoglineFields;

    open spec fn view(&self) -> LoglineFields {
        LoglineFields {
            prog_ctr: self.prog_ctr@,
            accumulator: self.accumulator@,
            x_reg: self.x_reg@,
            y_reg: self.y_reg@,
            status_reg: self.status_reg@,
            stack_ptr: self.stack_ptr@,
        }
    }
}

/// Whether two texts hold the same characters.
pub fn same_text(a: &str, b: &str) -> (same: bool)
    ensures
        same == (a@ == b@),
{
    let x = chars_of(a);
    let y = chars_of(b);
    if x.len() != y.len() {
        return false;
    }
    let mut i: usize = 0;
    while i < x.len()
        invariant
            x@ == a@,
            y@ == b@,
            x@.len() == y@.len(),
            i <= x@.len(),
            forall|k: int| 0 <= k < i ==> x@[k] == y@[k],
        decreases x@.len() - i,
    {
        if x[i] != y[i] {
            return false;
        }
        i += 1;
    }
    assert(x@ =~= y@);
    true
}

impl<'a> PartialEq for Logline<'a> {
    /// Two lines are equal when their six fields are.
    fn eq(&self, other: &Logline<'a>) -> (same: bool) {
        same_text(self.prog_ctr, other.prog_ctr) && same_text(self.accumulator, other.accumulator)
            && same_text(self.x_reg, other.x_reg) && same_text(self.y_reg, other.y_reg)
            && same_text(self.status_reg, other.status_reg) && same_text(
            self.stack_ptr,
            other.stack_ptr,
        )
    }
}

impl<'a> PartialEqSpecImpl for Logline<'a> {
    open spec fn obeys_eq_spec() -> bool {
        true
    }

    open spec fn eq_spec(&self, other: &Logline<'a>) -> bool {
        self@ == other@
    }
}

/// The fields of a line in this emulator's trace format: the first word
/// is the program counter, the last five are A, X, Y, P and SP. A line of
/// fewer than five words has no fields.
pub open spec fn my_fields(line: Seq<char>) -> Option<LoglineFields> {
    let w = words(line);
    if w.len() < 5 {
        None
    } else {
        Some(
            LoglineFields {
                prog_ctr: w[0],
                accumulator: w[w.len() - 5],
                x_reg: w[w.len() - 4],
                y_reg: w[w.len() - 3],
                status_reg: w[w.len() - 2],
                stack_ptr: w[w.len() - 1],
            },
        )
    }
}

/// The first word of `line`, if it has one.
pub open spec fn first_word(line: Seq<char>) -> Option<Seq<char>> {
    if words(line).len() == 0 {
        None
    } else {
        Some(words(line)[0])
    }
}

/// What `Regex::new(pattern)` followed by `find(haystack)` yields: the
/// text of the first match of `pattern` in `haystack`, or `None` where
/// there is no match, or where `pattern` is no regular expression.
pub uninterp spec fn regex_find(pattern: Seq<char>, haystack: Seq<char>) -> Option<Seq<char>>;

/// The fields of a line of a Nintendulator log: the program counter is the
/// first word; each register field is the first match of its own
/// pattern, its label and the two characters after it. A line without a
/// word, or without a match for one of the patterns, has no fields.
pub open spec fn their_fields(line: Seq<char>) -> Option<LoglineFields> {
    fields_from_parts(
        first_word(line),
        regex_find("A:.{2}"@, line),
        regex_find("X:.{2}"@, line),
        regex_find("Y:.{2}"@, line),
        regex_find("P:.{2}"@, line),
        regex_find("SP:.{2}"@, line),
    )
}

/// The fields made of six parts, where none of them is missing.
pub open spec fn fields_from_parts(
    prog_ctr: Option<Seq<char>>,
    accumulator: Option<Seq<char>>,
    x_reg: Option<Seq<char>>,
    y_reg: Option<Seq<char>>,
    status_reg: Option<Seq<char>>,
    stack_ptr: Option<Seq<char>>,
) -> Option<LoglineFields> {
    if prog_ctr is Some && accumulator is Some && x_reg is Some && y_reg is Some && status_reg
        is Some && stack_ptr is Some {
        Some(
            LoglineFields {
                prog_ctr: prog_ctr->0,
                accumulator: accumulator->0,
                x_reg: x_reg->0,
                y_reg: y_reg->0,
                status_reg: status_reg->0,
                stack_ptr: stack_ptr->0,
            },
        )
    } else {
        None
    }
}

/// The view of a text that may be missing.
pub open spec fn text_of(part: Option<&str>) -> Option<Seq<char>> {
    match part {
        Some(t) => Some(t@),
        None => None,
    }
}

/// The view of a line that may be missing.
pub open spec fn fields_of(line: Option<Logline>) -> Option<LoglineFields> {
    match line {
        Some(l) => Some(l@),
        None => None,
    }
}

/// `Regex::new` and `Regex::find` of the regex crate: compiles `pattern`
/// and searches `haystack` for its first match, whose text
/// (`Match::as_str`) is returned. The result is the one that `regex_find`
/// names; nothing more is claimed of it.
#[verifier::external_body]
fn find_first<'a>(pattern: &str, haystack: &'a str) -> (found: Option<&'a str>)
    ensures
        text_of(found) == regex_find(pattern@, haystack@),
{
    let re = match regex::Regex::new(pattern) {
        Ok(re) => re,
        Err(_) => return None,
    };
    match re.find(haystack) {
        Some(m) => Some(m.as_str()),
        None => None,
    }
}

/// Parses a line of this emulator's trace.
pub fn parse_my_line<'a>(line: &'a String) -> (parsed: Option<Logline<'a>>)
    ensures
        fields_of(parsed) == my_fields(line@),
{
    let text: &'a str = line.as_str();
    let chars = chars_of(text);
    let splits = word_ranges(&chars);
    let len = splits.len();
    if len < 5 {
        return None;
    }
    let ghost w = words(line@);
    Some(
        Logline {
            prog_ctr: text.substring_char(splits[0].0, splits[0].1),
            stack_ptr: text.substring_char(splits[len - 1].0, splits[len - 1].1),
            status_reg: text.substring_char(splits[len - 2].0, splits[len - 2].1),
            y_reg: text.substring_char(splits[len - 3].0, splits[len - 3].1),
            x_reg: text.substring_char(splits[len - 4].0, splits[len - 4].1),
            accumulator: text.substring_char(splits[len - 5].0, splits[len - 5].1),
        },
    )
}

/// Puts six parts of a line together, where none of them is missing.
pub fn logline_from_parts<'a>(
    prog_ctr: Option<&'a str>,
    accumulator: Option<&'a str>,
    x_reg: Option<&'a str>,
    y_reg: Option<&'a str>,
    status_reg: Option<&'a str>,
    stack_ptr: Option<&'a str>,
) -> (parsed: Option<Logline<'a>>)
    ensures
        fields_of(parsed) == fields_from_parts(
            text_of(prog_ctr),
            text_of(accumulator),
            text_of(x_reg),
            text_of(y_reg),
            text_of(status_reg),
            text_of(stack_ptr),
        ),
{
    match (prog_ctr, accumulator, x_reg, y_reg, status_reg, stack_ptr) {
        (Some(prog_ctr), Some(accumulator), Some(x_reg), Some(y_reg), Some(status_reg), Some(stack_ptr)) => Some(
            Logline { prog_ctr, accumulator, x_reg, y_reg, status_reg, stack_ptr },
        ),
        _ => None,
    }
}

/// The first word of `line`, if it has one.
pub fn first_word_of<'a>(line: &'a str) -> (found: Option<&'a str>)
    ensures
        text_of(found) == first_word(line@),
{
    let chars = chars_of(line);
    let splits = word_ranges(&chars);
    if splits.len() == 0 {
        None
    } else {
        Some(line.substring_char(splits[0].0, splits[0].1))
    }
}

/// Parses a line of a Nintendulator log, which holds more fields than this
/// emulator's trace and spaces them otherwise.
pub fn parse_their_line<'a>(line: &'a String) -> (parsed: Option<Logline<'a>>)
    ensures
        fields_of(parsed) == their_fields(line@),
{
    let text: &'a str = line.as_str();
    logline_from_parts(
        first_word_of(text),
        find_first("A:.{2}", text),
        find_first("X:.{2}", text),
        find_first("Y:.{2}", text),
        find_first("P:.{2}", text),
        find_first("SP:.{2}", text),
    )
}

} // verus!
