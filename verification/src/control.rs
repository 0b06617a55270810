//! The control-command grammar: one newline-delimited line from the
//! supervising parent is trimmed and split into a verb and its arguments.

use vstd::prelude::*;
use crate::strutil::{spec_trim, split_cmd, trim_str, split_first_space};

verus! {

/// The parse of one control line: `None` for a blank line, otherwise the
/// verb (text before the first space of the trimmed line) and the argument
/// rest (text after that space, `""` when there is none).
pub open spec fn spec_parse_line(line: Seq<char>) -> Option<(Seq<char>, Seq<char>)> {
    let t = spec_trim(line);
    if t.len() == 0 {
        None
    } else {
        Some(split_cmd(t))
    }
}

/// Splits one control line into `(verb, args)`; a blank line is `None`.
pub fn parse_line<'a>(line: &'a str) -> (r: Option<(&'a str, &'a str)>)
    ensures
        match r {
            Some((cmd, args)) => spec_parse_line(line@) == Some((cmd@, args@)),
            None => spec_parse_line(line@) is None,
        },
{
    let t = trim_str(line);
    if t.is_empty() {
        return None;
    }
    let (cmd, args) = split_first_space(t);
    Some((cmd, args))
}

/// Whether the trimmed line's verb is exactly `verb`.
pub open spec fn line_has_verb(line: Seq<char>, verb: Seq<char>) -> bool {
    match spec_parse_line(line) {
        Some((cmd, _)) => cmd == verb,
        None => false,
    }
}

} // verus!
