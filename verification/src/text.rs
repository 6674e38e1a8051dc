//! Comparisons of string slices, character by character.

use vstd::prelude::*;
use vstd::std_specs::iter::IteratorSpec;

verus! {

/// Whether `s` begins with `prefix`.
pub fn starts_with(s: &str, prefix: &str) -> (r: bool)
    ensures
        r == prefix@.is_prefix_of(s@),
{
    let mut rest = s.chars();
    for c in it: prefix.chars()
        invariant
            rest.remaining() == s@.skip(it.index() as int),
            it.index() <= s@.len(),
            s@.take(it.index() as int) == prefix@.take(it.index() as int),
            it.seq() == prefix@,
    {
        match rest.next() {
            None => {
                return false;
            },
            Some(d) => {
                if c != d {
                    return false;
                }
            },
        }
    }
    true
}

/// Whether `a` and `b` hold the same characters.
pub fn same_text(a: &str, b: &str) -> (r: bool)
    ensures
        r == (a@ == b@),
{
    let mut rest = b.chars();
    for c in it: a.chars()
        invariant
            rest.remaining() == b@.skip(it.index() as int),
            it.index() <= b@.len(),
            a@.take(it.index() as int) == b@.take(it.index() as int),
            it.seq() == a@,
    {
        match rest.next() {
            None => {
                return false;
            },
            Some(d) => {
                if c != d {
                    return false;
                }
            },
        }
    }
    let end = rest.next();
    proof {
        let n = a@.len() as int;
        assert(a@.take(n) == a@);
        if end is None {
            assert(b@.skip(n).len() == 0);
            assert(b@.take(n) == b@);
        } else {
            assert(b@.skip(n).len() > 0);
        }
    }
    end.is_none()
}

} // verus!
