//! Texts that close a progress bar.

use crate::text::{chars_of, extend_str, string_of};
use vstd::prelude::*;

verus! {

/// How a progress bar finishes.
#[derive(Clone, Copy, Debug, PartialEq, Eq, Structural)]
pub enum Finish {
    Success,
    Error,
    Warning,
}

/// The mark that precedes the closing message: a check mark, a cross or a warning sign.
pub open spec fn finish_mark(kind: Finish) -> char {
    match kind {
        Finish::Success => '\u{2714}',
        Finish::Error => '\u{2718}',
        Finish::Warning => '\u{26A0}',
    }
}

/// The closing message of a progress bar: its mark, a space, the message.
pub fn finish_text(kind: Finish, message: &str) -> (r: String)
    ensures
        r@ == seq![finish_mark(kind), ' '] + message@,
{
    let mut v: Vec<char> = Vec::new();
    match kind {
        Finish::Success => v.push('\u{2714}'),
        Finish::Error => v.push('\u{2718}'),
        Finish::Warning => v.push('\u{26A0}'),
    }
    v.push(' ');
    extend_str(&mut v, message);
    assert(v@ =~= seq![finish_mark(kind), ' '] + message@);
    string_of(&v)
}

} // verus!
