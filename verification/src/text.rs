//! Small operations on `String` and `str` with contracts over their views.

use vstd::prelude::*;

verus! {

/// `String::push`: appends one character.
#[verifier::external_body]
pub fn push_char(s: &mut String, c: char)
    ensures
        final(s)@ == old(s)@.push(c),
{
    s.push(c)
}

/// Whether `s` begins with `prefix`.
pub fn starts_with(s: &str, prefix: &str) -> (r: bool)
    ensures
        r == prefix@.is_prefix_of(s@),
{
    broadcast use vstd::string::group_string_axioms;

    let mut rest = s.chars();
    let mut want = prefix.chars();
    let ghost mut k: int = 0;
    loop
        invariant
            0 <= k <= prefix@.len(),
            k <= s@.len(),
            vstd::std_specs::iter::IteratorSpec::remaining(&rest) == s@.skip(k),
            vstd::std_specs::iter::IteratorSpec::remaining(&want) == prefix@.skip(k),
            forall|j: int| 0 <= j < k ==> s@[j] == prefix@[j],
        decreases prefix@.len() - k,
    {
        match want.next() {
            None => {
                return true;
            },
            Some(c) => match rest.next() {
                None => {
                    return false;
                },
                Some(d) => {
                    if c != d {
                        return false;
                    }
                },
            },
        }
        proof {
            k = k + 1;
        }
    }
}

/// Whether `a` and `b` hold the same text.
pub fn str_eq(a: &str, b: &str) -> (r: bool)
    ensures
        r == (a@ == b@),
{
    let r = starts_with(a, b) && starts_with(b, a);
    proof {
        if r {
            assert(a@ =~= b@);
        }
    }
    r
}

} // verus!
