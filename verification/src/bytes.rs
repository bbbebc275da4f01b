//! Small helpers on byte strings and the vocabulary the contracts share.

use vstd::prelude::*;

verus! {

/// `s` begins with `prefix`.
pub open spec fn starts_with(s: Seq<u8>, prefix: Seq<u8>) -> bool {
    s.len() >= prefix.len() && s.subrange(0, prefix.len() as int) == prefix
}

/// `s` ends with `suffix`.
pub open spec fn ends_with(s: Seq<u8>, suffix: Seq<u8>) -> bool {
    s.len() >= suffix.len() && s.subrange(s.len() - suffix.len(), s.len() as int) == suffix
}

/// Byte `a` is directly followed by byte `b` somewhere in `s`.
pub open spec fn has_pair(s: Seq<u8>, a: u8, b: u8) -> bool {
    exists|i: int| 0 <= i && i + 1 < s.len() && #[trigger] s[i] == a && s[i + 1] == b
}

/// The bytes `a`, `b`, `c` stand next to each other somewhere in `s`.
pub open spec fn has_triple(s: Seq<u8>, a: u8, b: u8, c: u8) -> bool {
    exists|i: int|
        0 <= i && i + 2 < s.len() && #[trigger] s[i] == a && s[i + 1] == b && s[i + 2] == c
}

/// A fresh vector holding the bytes of `s`.
pub fn to_vec(s: &[u8]) -> (out: Vec<u8>)
    ensures
        out@ == s@,
{
    let mut out: Vec<u8> = Vec::new();
    let mut i: usize = 0;
    while i < s.len()
        invariant
            i <= s.len(),
            out@ == s@.subrange(0, i as int),
        decreases s.len() - i,
    {
        out.push(s[i]);
        i += 1;
        assert(out@ == s@.subrange(0, i as int));
    }
    assert(s@.subrange(0, s.len() as int) == s@);
    out
}

/// Appends the bytes of `s` to `out`.
pub fn append(out: &mut Vec<u8>, s: &[u8])
    ensures
        final(out)@ == old(out)@ + s@,
{
    let ghost before = out@;
    let mut i: usize = 0;
    while i < s.len()
        invariant
            i <= s.len(),
            out@ == before + s@.subrange(0, i as int),
        decreases s.len() - i,
    {
        out.push(s[i]);
        i += 1;
        assert(out@ == before + s@.subrange(0, i as int));
    }
    assert(s@.subrange(0, s.len() as int) == s@);
}

/// Whether two byte strings hold the same bytes.
pub fn same(a: &[u8], b: &[u8]) -> (r: bool)
    ensures
        r <==> a@ == b@,
{
    if a.len() != b.len() {
        return false;
    }
    let mut i: usize = 0;
    while i < a.len()
        invariant
            i <= a.len(),
            a.len() == b.len(),
            a@.subrange(0, i as int) == b@.subrange(0, i as int),
        decreases a.len() - i,
    {
        if a[i] != b[i] {
            return false;
        }
        i += 1;
        assert(a@.subrange(0, i as int) == a@.subrange(0, i - 1).push(a@[i - 1]));
        assert(b@.subrange(0, i as int) == b@.subrange(0, i - 1).push(b@[i - 1]));
    }
    assert(a@.subrange(0, a.len() as int) == a@);
    assert(b@.subrange(0, b.len() as int) == b@);
    true
}

} // verus!
