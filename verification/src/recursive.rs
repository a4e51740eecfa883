//! Balanced-bracket check, recursive expectation-passing formulation.
//!
//! [`expect`] walks the characters from a position: on an opener it
//! recurses, expecting the matching closer before control returns to its
//! own expectation; on a closer or at the end of input it reports whether
//! what it found equals the closer it was expecting. [`balanced`] starts
//! the walk expecting nothing, and is proved to return exactly
//! [`is_balanced`] of the input — the same value as the stack formulation
//! in [`crate::brackets`], so the two agree on every input.

use vstd::prelude::*;
use vstd::string::StrSliceExecFns;
use crate::brackets::{closer_char, closer_for, is_balanced, is_opener, scan};

verus! {

/// A walk of `s` from `from` to `to` closed the group owed the closer `e`:
/// under any stack of pending closers topped by `e`, scanning from `from`
/// is scanning from `to` with `e` popped.
pub open spec fn closes_group(s: Seq<char>, from: int, e: char, to: int) -> bool {
    forall|rest: Seq<char>| scan(s, from, rest.push(e)) == scan(s, to, rest)
}

/// No scan of `s` from `from` can close a group owed the closer `e`,
/// whatever stack of pending closers stands below it.
pub open spec fn cannot_close(s: Seq<char>, from: int, e: char) -> bool {
    forall|rest: Seq<char>| !scan(s, from, rest.push(e))
}

/// Walk `input` from position `from`, expecting `end` (the closer owed to
/// the enclosing group, or `None` at top level). Returns whether the walk
/// succeeded and the position just past what it consumed.
///
/// The contract ties the walk to the stack model: a successful walk under
/// `Some(e)` consumes exactly a stretch that closes the group owed `e`;
/// a failed one shows no such stretch starts at `from`. Under `None` the
/// result is the balance of the rest of the input itself.
pub fn expect(end: Option<char>, input: &str, from: usize) -> (res: (bool, usize))
    requires
        from <= input@.len(),
    ensures
        from <= res.1 <= input@.len(),
        match end {
            Some(e) => {
                &&& res.0 ==> from < res.1 && closes_group(
                    input@,
                    from as int,
                    e,
                    res.1 as int,
                )
                &&& !res.0 ==> cannot_close(input@, from as int, e)
            },
            None => res.0 == scan(input@, from as int, Seq::empty()),
        },
    decreases input@.len() - from,
{
    let n: usize = input.unicode_len();
    let mut p = from;
    while p < n
        invariant
            n == input@.len(),
            from <= p <= n,
            forall|rest: Seq<char>| scan(input@, from as int, rest) == scan(input@, p as int, rest),
        decreases n - p,
    {
        let c = input.get_char(p);
        if c == '(' || c == '[' || c == '{' {
            let want = closer_char(c);
            let next: usize = p + 1;
            let (ok, q) = expect(Some(want), input, next);
            if !ok {
                proof {
                    assert(cannot_close(input@, next as int, want));
                    assert forall|rest: Seq<char>| !scan(input@, from as int, rest) by {
                        assert(!scan(input@, next as int, rest.push(want)));
                        assert(scan(input@, p as int, rest) == scan(
                            input@,
                            next as int,
                            rest.push(closer_for(c)),
                        ));
                    }
                }
                return (false, q);
            }
            proof {
                assert(closes_group(input@, next as int, want, q as int));
                assert forall|rest: Seq<char>|
                    scan(input@, from as int, rest) == scan(input@, q as int, rest) by {
                    assert(scan(input@, next as int, rest.push(want)) == scan(
                        input@,
                        q as int,
                        rest,
                    ));
                    assert(scan(input@, p as int, rest) == scan(
                        input@,
                        next as int,
                        rest.push(closer_for(c)),
                    ));
                }
            }
            p = q;
        } else if c == ')' || c == ']' || c == '}' {
            let ok = match end {
                Some(e) => e == c,
                None => false,
            };
            proof {
                if end is Some {
                    let e = end->0;
                    assert forall|rest: Seq<char>|
                        scan(input@, from as int, rest.push(e)) == (e == c && scan(
                            input@,
                            p + 1,
                            rest,
                        )) by {
                        assert(rest.push(e).last() == e);
                        assert(rest.push(e).drop_last() == rest);
                    }
                }
            }
            return (ok, p + 1);
        } else {
            p = p + 1;
        }
    }
    let ok = match end {
        Some(_) => false,
        None => true,
    };
    (ok, p)
}

/// Check bracket balance by the recursive expectation-passing walk,
/// starting with no expected closer.
pub fn balanced(input: &str) -> (r: bool)
    ensures
        r == is_balanced(input@),
{
    let (ok, _consumed) = expect(None, input, 0);
    ok
}

} // verus!
