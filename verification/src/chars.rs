//! Character-level helpers shared by the other modules.

use vstd::prelude::*;

verus! {

broadcast use vstd::string::group_string_axioms;

/// The characters of `s`, in order.
pub(crate) fn chars_of(s: &str) -> (r: Vec<char>)
    ensures
        r@ == s@,
{
    let mut out: Vec<char> = Vec::new();
    for c in it: s.chars()
        invariant
            out@ == it.seq().take(it.index() as int),
            it.seq() == s@,
    {
        out.push(c);
    }
    out
}

/// Whether `v` from position `start` on holds exactly the characters of `lit`.
pub(crate) fn tail_equals(v: &Vec<char>, start: usize, lit: &[char]) -> (r: bool)
    requires
        start <= v.len(),
    ensures
        r == (v@.subrange(start as int, v@.len() as int) == lit@),
{
    if v.len() - start != lit.len() {
        assert(v@.subrange(start as int, v@.len() as int).len() != lit@.len());
        return false;
    }
    let mut i: usize = 0;
    while i < lit.len()
        invariant
            start <= v.len(),
            v.len() - start == lit.len(),
            i <= lit.len(),
            forall|j: int| 0 <= j < i ==> v@[start + j] == lit@[j],
        decreases lit.len() - i,
    {
        if v[start + i] != lit[i] {
            assert(v@.subrange(start as int, v@.len() as int)[i as int] != lit@[i as int]);
            return false;
        }
        i = i + 1;
    }
    assert(v@.subrange(start as int, v@.len() as int) =~= lit@);
    true
}

/// Whether `a` and `b` hold the same characters.
pub(crate) fn vec_equals(a: &Vec<char>, b: &[char]) -> (r: bool)
    ensures
        r == (a@ == b@),
{
    let r = tail_equals(a, 0, b);
    assert(a@.subrange(0, a@.len() as int) =~= a@);
    r
}

/// Whether `v` begins with the characters of `lit`.
pub(crate) fn starts_with(v: &Vec<char>, lit: &[char]) -> (r: bool)
    ensures
        r == (lit@.len() <= v@.len() && v@.subrange(0, lit@.len() as int) == lit@),
{
    if lit.len() > v.len() {
        return false;
    }
    let mut i: usize = 0;
    while i < lit.len()
        invariant
            lit.len() <= v.len(),
            i <= lit.len(),
            forall|j: int| 0 <= j < i ==> v@[j] == lit@[j],
        decreases lit.len() - i,
    {
        if v[i] != lit[i] {
            assert(v@.subrange(0, lit@.len() as int)[i as int] != lit@[i as int]);
            return false;
        }
        i = i + 1;
    }
    assert(v@.subrange(0, lit@.len() as int) =~= lit@);
    true
}

} // verus!
