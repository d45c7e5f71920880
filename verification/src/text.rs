//! Case-sensitive comparison of strings, character by character.

use std::str::Chars;
use vstd::prelude::*;
use vstd::std_specs::iter::IteratorSpec;

verus! {

/// Whether `s` begins with `prefix`. Nothing is normalised: the characters are
/// compared as they stand.
pub fn starts_with(s: &str, prefix: &str) -> (found: bool)
    ensures
        found == prefix@.is_prefix_of(s@),
{
    let mut rest: Chars = s.chars();
    let mut wanted: Chars = prefix.chars();
    let ghost mut n: int = 0;
    proof {
        vstd::string::axiom_spec_iter(s);
        vstd::string::axiom_spec_iter(prefix);
    }
    loop
        invariant
            0 <= n <= prefix@.len(),
            n <= s@.len(),
            rest.obeys_prophetic_iter_laws(),
            wanted.obeys_prophetic_iter_laws(),
            rest.remaining() == s@.skip(n),
            wanted.remaining() == prefix@.skip(n),
            s@.take(n) == prefix@.take(n),
        decreases prefix@.len() - n,
    {
        let ghost wanted_before = wanted;
        let ghost rest_before = rest;
        let next_wanted = wanted.next();
        proof {
            vstd::string::next_postcondition(&wanted_before, &wanted, next_wanted);
        }
        match next_wanted {
            None => {
                assert(prefix@.take(n) == prefix@);
                return true;
            },
            Some(p) => {
                let next_rest = rest.next();
                proof {
                    vstd::string::next_postcondition(&rest_before, &rest, next_rest);
                }
                match next_rest {
                    None => {
                        return false;
                    },
                    Some(c) => {
                        if c != p {
                            assert(prefix@.len() <= s@.len() ==> s@.subrange(
                                0,
                                prefix@.len() as int,
                            )[n] == s@[n]);
                            return false;
                        }
                        proof {
                            assert(s@.take(n + 1) == s@.take(n).push(c));
                            assert(prefix@.take(n + 1) == prefix@.take(n).push(p));
                            n = n + 1;
                        }
                    },
                }
            },
        }
    }
}

/// Whether `a` and `b` hold the same characters.
pub fn same_text(a: &str, b: &str) -> (same: bool)
    ensures
        same == (a@ == b@),
{
    let same = starts_with(a, b) && starts_with(b, a);
    assert(a@.subrange(0, a@.len() as int) == a@);
    same
}

/// The characters of each entry of a table of strings.
pub open spec fn entries(table: Seq<&str>) -> Seq<Seq<char>> {
    Seq::new(table.len(), |i: int| table[i]@)
}

/// Whether `s` is one of the strings of `table`.
pub fn listed(table: &[&str], s: &str) -> (found: bool)
    ensures
        found == entries(table@).contains(s@),
{
    let mut i: usize = 0;
    while i < table.len()
        invariant
            i <= table@.len(),
            forall|j: int| 0 <= j < i ==> entries(table@)[j] != s@,
        decreases table@.len() - i,
    {
        if same_text(table[i], s) {
            assert(entries(table@)[i as int] == s@);
            return true;
        }
        i += 1;
    }
    false
}

} // verus!
