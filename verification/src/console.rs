//! The console dialogue: what is asked, and what counts as the answer.

use vstd::prelude::*;
use vstd::string::*;

verus! {

/// The prompt shown before a value is read.
pub open spec fn prompt_text(field: Seq<char>) -> Seq<char> {
    "Enter "@ + field + ": "@
}

/// Builds the prompt for `field`.
pub fn prompt(field: &str) -> (text: String)
    ensures
        text@ == prompt_text(field@),
{
    String::from_str("Enter ").concat(field).concat(": ")
}

/// `line` without the line ending that closes it: its final line feed, and
/// the carriage return directly before that line feed where there is one.
/// A line that does not end in a line feed is left as it is, and so is every
/// other character, spaces and tabs at the end included.
pub open spec fn without_line_ending(line: Seq<char>) -> Seq<char> {
    if line.len() > 0 && line.last() == '\n' {
        let rest = line.drop_last();
        if rest.len() > 0 && rest.last() == '\r' {
            rest.drop_last()
        } else {
            rest
        }
    } else {
        line
    }
}

/// The value that a line read from the console stands for: the line without
/// its line ending. Nothing else is removed or checked.
pub fn entered_value(line: &str) -> (value: String)
    ensures
        value@ == without_line_ending(line@),
{
    let length = line.unicode_len();
    if length > 0 && line.get_char(length - 1) == '\n' {
        let kept = if length > 1 && line.get_char(length - 2) == '\r' {
            length - 2
        } else {
            length - 1
        };
        proof {
            let rest = line@.drop_last();
            assert(rest =~= line@.subrange(0, length - 1));
            if length > 1 {
                assert(rest.last() == line@[length - 2]);
                assert(rest.drop_last() =~= line@.subrange(0, length - 2));
            }
        }
        String::from_str(line.substring_char(0, kept))
    } else {
        String::from_str(line)
    }
}

} // verus!
