//! What is done to a line once the user has typed it.

use crate::text::{chars_of, slice_chars, string_of};
use vstd::prelude::*;

verus! {

/// `line` without the line ending at its end: one line feed, and the
/// carriage return before it where there is one.
pub open spec fn without_line_ending(line: Seq<char>) -> Seq<char> {
    if line.len() > 0 && line.last() == '\n' {
        let rest = line.drop_last();
        if rest.len() > 0 && rest.last() == '\r' {
            rest.drop_last()
        } else {
            rest
        }
    } else {
        line
    }
}

/// Removes the line ending from a line as it was read.
pub fn strip_line_ending(line: &str) -> (r: String)
    ensures
        r@ == without_line_ending(line@),
{
    let chars = chars_of(line);
    let mut end: usize = chars.len();
    if end > 0 && chars[end - 1] == '\n' {
        end -= 1;
        if end > 0 && chars[end - 1] == '\r' {
            end -= 1;
        }
    }
    let kept = slice_chars(chars.as_slice(), 0, end);
    assert(chars@.subrange(0, chars@.len() as int) == chars@);
    string_of(kept.as_slice())
}

/// Whether a password typed twice was typed the same both times.
pub fn passwords_match(first: &str, second: &str) -> (r: bool)
    ensures
        r == (first@ == second@),
{
    crate::text::str_eq(first, second)
}

} // verus!
