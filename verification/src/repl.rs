//! The command loop's input classifier.
//!
//! The loop reads one line at a time and routes it: `exit` (exact match)
//! ends the session, `clear context` (exact match) empties the history,
//! blank input is ignored, and anything else is a prompt for the model.
use vstd::prelude::*;

verus! {

/// Whether `c` has the Unicode white-space property, as
/// `char::is_whitespace` decides it.
pub uninterp spec fn is_whitespace_char(c: char) -> bool;

/// Relies on char::is_whitespace: true exactly for characters with the
/// White_Space property, which includes the ASCII space, tab, line feed and
/// carriage return and excludes ASCII letters and digits.
#[verifier::external_body]
fn char_is_whitespace(c: char) -> (r: bool)
    ensures
        r == is_whitespace_char(c),
        (c == ' ' || c == '\t' || c == '\n' || c == '\r') ==> r,
        (('a' <= c && c <= 'z') || ('A' <= c && c <= 'Z') || ('0' <= c && c <= '9')) ==> !r,
{
    c.is_whitespace()
}

/// A line is blank when every character of it is white space; the empty
/// line is blank.
pub open spec fn is_blank(s: Seq<char>) -> bool {
    forall|i: int| 0 <= i < s.len() ==> is_whitespace_char(s[i])
}

/// Whether a line of input is blank.
pub fn input_is_blank(line: &str) -> (r: bool)
    ensures
        r == is_blank(line@),
{
    let n = line.unicode_len();
    let mut i: usize = 0;
    while i < n
        invariant
            n == line@.len(),
            0 <= i <= n,
            forall|j: int| 0 <= j < i ==> is_whitespace_char(line@[j]),
        decreases n - i,
    {
        if !char_is_whitespace(line.get_char(i)) {
            return false;
        }
        i += 1;
    }
    true
}

/// What the command loop does with one line of input.
#[derive(Clone, Copy, PartialEq, Eq, Structural, Debug)]
pub enum Command {
    /// End the session; the history is discarded, not persisted.
    Exit,
    /// Empty the conversation history and keep going.
    Clear,
    /// Do nothing: no call is made and the history is not touched.
    Ignore,
    /// Send the line to the model as a prompt.
    Prompt,
}

/// How each line of input is routed: the two commands are matched exactly
/// (so an inexact form such as a padded `exit` is an ordinary prompt),
/// blank input is ignored, and everything else is a prompt.
pub open spec fn classify_spec(s: Seq<char>) -> Command {
    if s == "exit"@ {
        Command::Exit
    } else if s == "clear context"@ {
        Command::Clear
    } else if is_blank(s) {
        Command::Ignore
    } else {
        Command::Prompt
    }
}

/// Routes one line of input.
pub fn classify_input(line: &str) -> (c: Command)
    ensures
        c == classify_spec(line@),
{
    if crate::text::str_eq(line, "exit") {
        Command::Exit
    } else if crate::text::str_eq(line, "clear context") {
        Command::Clear
    } else if input_is_blank(line) {
        Command::Ignore
    } else {
        Command::Prompt
    }
}

} // verus!
