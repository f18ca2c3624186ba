//! Small text helpers shared by the scanner and the printers.

use vstd::prelude::*;

verus! {

/// A sequence of `n` spaces (empty when `n` is negative).
pub open spec fn spec_spaces(n: int) -> Seq<char> {
    if n <= 0 {
        Seq::empty()
    } else {
        Seq::new(n as nat, |i: int| ' ')
    }
}

/// Relies on `core::iter::Iterator::collect` for `String`: the collected
/// string holds exactly the characters of the vector, in order.
#[verifier::external_body]
pub fn chars_to_string(v: &Vec<char>) -> (r: String)
    ensures
        r@ == v@,
{
    v.iter().collect()
}

/// A string of `n` repetitions of `c`.
pub fn repeat_char(c: char, n: usize) -> (r: String)
    ensures
        r@ == Seq::new(n as nat, |i: int| c),
{
    let mut v: Vec<char> = Vec::new();
    let mut i: usize = 0;
    while i < n
        invariant
            i <= n,
            v@ =~= Seq::new(i as nat, |j: int| c),
        decreases n - i,
    {
        v.push(c);
        i = i + 1;
    }
    proof {
        assert(v@ =~= Seq::new(n as nat, |j: int| c));
    }
    chars_to_string(&v)
}

/// A string of `n` spaces.
pub fn spaces(n: usize) -> (r: String)
    ensures
        r@ == spec_spaces(n as int),
{
    let r = repeat_char(' ', n);
    proof {
        assert(r@ =~= spec_spaces(n as int));
    }
    r
}

} // verus!
