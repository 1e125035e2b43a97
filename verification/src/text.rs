//! Text primitives shared by header parsing and the endpoints.
//!
//! Everything here is stated over `Seq<char>`, the view of `str` and `String`.

use vstd::prelude::*;

verus! {

/// The characters of `s`, in order.
pub fn chars_of(s: &str) -> (v: Vec<char>)
    ensures
        v@ == s@,
{
    let mut v: Vec<char> = Vec::new();
    for c in it: s.chars()
        invariant
            v@ == s@.take(it.index() as int),
            it.seq() == s@,
    {
        v.push(c);
    }
    v
}

/// Whether two texts hold the same characters.
pub fn same_text(a: &str, b: &str) -> (r: bool)
    ensures
        r == (a@ == b@),
{
    let x = a.to_owned();
    let y = b.to_owned();
    x == y
}

/// Whether `prefix` stands in `chars` at position `at`.
pub fn has_prefix_at(chars: &Vec<char>, at: usize, prefix: &Vec<char>) -> (r: bool)
    requires
        at <= chars.len(),
    ensures
        r == prefix@.is_prefix_of(chars@.skip(at as int)),
{
    let n = chars.len();
    let m = prefix.len();
    if m > n - at {
        return false;
    }
    let mut i: usize = 0;
    while i < m
        invariant
            i <= m,
            m == prefix.len(),
            n == chars.len(),
            at <= n,
            m <= n - at,
            forall|j: int| 0 <= j < i ==> chars@[at + j] == prefix@[j],
        decreases m - i,
    {
        if chars[at + i] != prefix[i] {
            proof {
                let rest = chars@.skip(at as int);
                assert(rest[i as int] != prefix@[i as int]);
                assert(rest.subrange(0, m as int)[i as int] == rest[i as int]);
            }
            return false;
        }
        i = i + 1;
    }
    proof {
        let rest = chars@.skip(at as int);
        assert(rest.subrange(0, m as int) =~= prefix@);
    }
    true
}

} // verus!
