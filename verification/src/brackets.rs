//! Balanced-bracket check, stack formulation.
//!
//! Only the six glyphs `(`, `[`, `{`, `)`, `]`, `}` are significant; every
//! other character is inert. A sequence is balanced when every closer
//! matches the most recently unmatched opener of its kind and no opener is
//! left unmatched at the end. [`scan`] states that as a left-to-right scan
//! carrying the stack of pending closers, innermost last; [`is_balanced`]
//! is the scan started on the whole sequence with an empty stack.

use vstd::prelude::*;
use vstd::string::StrSliceExecFns;

verus! {

/// The character opens a bracket group.
pub open spec fn is_opener(c: char) -> bool {
    c == '(' || c == '[' || c == '{'
}

/// The character closes a bracket group.
pub open spec fn is_closer(c: char) -> bool {
    c == ')' || c == ']' || c == '}'
}

/// The closer glyph that matches an opener glyph.
pub open spec fn closer_for(c: char) -> char {
    if c == '(' {
        ')'
    } else if c == '[' {
        ']'
    } else {
        '}'
    }
}

/// The rest of `s`, from position `i` on, balances when scanned with
/// `pending` as the stack of closers still owed (innermost last): an
/// opener pushes its closer, a closer must equal the top of the stack
/// and pops it, an inert character changes nothing, and the end of the
/// sequence is reached with nothing owed.
pub open spec fn scan(s: Seq<char>, i: int, pending: Seq<char>) -> bool
    decreases s.len() - i,
{
    if i < 0 || i >= s.len() {
        pending.len() == 0
    } else {
        let c = s[i];
        if is_opener(c) {
            scan(s, i + 1, pending.push(closer_for(c)))
        } else if is_closer(c) {
            pending.len() > 0 && pending.last() == c && scan(s, i + 1, pending.drop_last())
        } else {
            scan(s, i + 1, pending)
        }
    }
}

/// Every opener in `s` is closed by a matching, correctly nested closer,
/// and every closer closes a previously opened group.
pub open spec fn is_balanced(s: Seq<char>) -> bool {
    scan(s, 0, Seq::empty())
}

/// The matching closer of an opener glyph.
pub fn closer_char(c: char) -> (r: char)
    requires
        is_opener(c),
    ensures
        r == closer_for(c),
{
    if c == '(' {
        ')'
    } else if c == '[' {
        ']'
    } else {
        '}'
    }
}

/// Check bracket balance with an explicit stack of pending closers, in one
/// left-to-right pass; a mismatched or unexpected closer returns early.
pub fn balanced(input: &str) -> (r: bool)
    ensures
        r == is_balanced(input@),
{
    let n: usize = input.unicode_len();
    let mut stack: Vec<char> = Vec::new();
    let mut i: usize = 0;
    while i < n
        invariant
            n == input@.len(),
            i <= n,
            is_balanced(input@) == scan(input@, i as int, stack@),
        decreases n - i,
    {
        let c = input.get_char(i);
        if c == '(' || c == '[' || c == '{' {
            stack.push(closer_char(c));
        } else if c == ')' || c == ']' || c == '}' {
            match stack.pop() {
                Some(top) => {
                    if top != c {
                        return false;
                    }
                },
                None => {
                    return false;
                },
            }
        }
        i = i + 1;
    }
    stack.len() == 0
}

} // verus!
