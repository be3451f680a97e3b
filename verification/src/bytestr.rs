//! Byte-sequence utilities: substring search, equality, case folding and
//! conversion of ASCII string literals, shared by the rest of the library.
use vstd::prelude::*;
use vstd::slice::slice_to_vec;
use vstd::string::StringSliceAdditionalSpecFns;

verus! {

/// The credential or other needle `c` occurs in `t` starting at index `i`.
pub open spec fn has_substring_at(t: Seq<u8>, c: Seq<u8>, i: int) -> bool {
    0 <= i && i + c.len() <= t.len() && t.subrange(i, i + c.len()) == c
}

/// The needle `c` occurs somewhere in `t`.
pub open spec fn has_substring(t: Seq<u8>, c: Seq<u8>) -> bool {
    exists|i: int| has_substring_at(t, c, i)
}

/// Compare `t[i .. i + c.len()]` with `c`.
pub fn matches_prefix_at(t: &Vec<u8>, c: &Vec<u8>, i: usize) -> (r: bool)
    requires
        i + c@.len() <= t@.len(),
    ensures
        r == (t@.subrange(i as int, i + c@.len()) == c@),
{
    let tl: usize = t.len();
    let mut j: usize = 0;
    while j < c.len()
        invariant
            0 <= j <= c@.len(),
            i + c@.len() <= t@.len(),
            tl == t@.len(),
            forall|k: int| 0 <= k < j ==> t@[i + k] == c@[k],
        decreases c@.len() - j,
    {
        if t[i + j] != c[j] {
            proof {
                let sub = t@.subrange(i as int, i + c@.len());
                assert(sub[j as int] == t@[i + j]);
            }
            return false;
        }
        j += 1;
    }
    proof {
        assert(t@.subrange(i as int, i + c@.len()) =~= c@);
    }
    true
}

/// Substring search: does `c` occur anywhere in `t`?
pub fn contains_bytes(t: &Vec<u8>, c: &Vec<u8>) -> (r: bool)
    ensures
        r == has_substring(t@, c@),
{
    if c.len() == 0 {
        proof {
            assert(t@.subrange(0, 0) =~= c@);
            assert(has_substring_at(t@, c@, 0));
        }
        return true;
    }
    if c.len() > t.len() {
        proof {
            assert(forall|i: int| !has_substring_at(t@, c@, i));
        }
        return false;
    }
    let tl: usize = t.len();
    let mut i: usize = 0;
    let last: usize = tl - c.len();
    while i <= last
        invariant
            0 <= i <= last + 1,
            last == t@.len() - c@.len(),
            1 <= c@.len() <= t@.len(),
            tl == t@.len(),
            forall|k: int| 0 <= k < i ==> !has_substring_at(t@, c@, k),
        decreases last + 1 - i,
    {
        if matches_prefix_at(t, c, i) {
            assert(has_substring_at(t@, c@, i as int));
            return true;
        }
        i += 1;
    }
    proof {
        assert(forall|k: int| has_substring_at(t@, c@, k) ==> 0 <= k <= last);
    }
    false
}

/// Byte-for-byte equality of two byte vectors.
pub fn bytes_eq(a: &Vec<u8>, b: &Vec<u8>) -> (r: bool)
    ensures
        r == (a@ == b@),
{
    if a.len() != b.len() {
        return false;
    }
    let mut i: usize = 0;
    while i < a.len()
        invariant
            0 <= i <= a@.len(),
            a@.len() == b@.len(),
            forall|k: int| 0 <= k < i ==> a@[k] == b@[k],
        decreases a@.len() - i,
    {
        if a[i] != b[i] {
            return false;
        }
        i += 1;
    }
    proof {
        assert(a@ =~= b@);
    }
    true
}

/// Does the byte vector hold the byte `x` anywhere?
pub fn contains_byte(v: &Vec<u8>, x: u8) -> (r: bool)
    ensures
        r == v@.contains(x),
{
    let mut i: usize = 0;
    while i < v.len()
        invariant
            0 <= i <= v@.len(),
            forall|k: int| 0 <= k < i ==> v@[k] != x,
        decreases v@.len() - i,
    {
        if v[i] == x {
            return true;
        }
        i += 1;
    }
    proof {
        assert(forall|k: int| 0 <= k < v@.len() ==> v@[k] != x);
    }
    false
}

/// Copy of a byte vector, element by element.
pub fn copy_bytes(src: &Vec<u8>) -> (out: Vec<u8>)
    ensures
        out@ == src@,
{
    let mut out: Vec<u8> = Vec::new();
    let mut i: usize = 0;
    while i < src.len()
        invariant
            0 <= i <= src@.len(),
            out@ == src@.subrange(0, i as int),
        decreases src@.len() - i,
    {
        out.push(src[i]);
        proof {
            assert(out@ =~= src@.subrange(0, i + 1));
        }
        i += 1;
    }
    proof {
        assert(src@.subrange(0, src@.len() as int) =~= src@);
    }
    out
}

/// Append all bytes of `src` onto `dst`.
pub fn append_bytes(dst: &mut Vec<u8>, src: &Vec<u8>)
    ensures
        final(dst)@ == old(dst)@ + src@,
{
    let mut i: usize = 0;
    while i < src.len()
        invariant
            0 <= i <= src@.len(),
            dst@ == old(dst)@ + src@.subrange(0, i as int),
        decreases src@.len() - i,
    {
        dst.push(src[i]);
        proof {
            assert(old(dst)@ + src@.subrange(0, i + 1) =~= old(dst)@ + src@.subrange(
                0,
                i as int,
            ) + seq![src@[i as int]]);
        }
        i += 1;
    }
    proof {
        assert(src@.subrange(0, src@.len() as int) =~= src@);
    }
}

/// The bytes of an (ASCII) string literal, as a vector.
pub fn str_bytes_vec(s: &str) -> (v: Vec<u8>)
    ensures
        v@ == s.spec_bytes(),
{
    slice_to_vec(s.as_bytes())
}

/// ASCII lower-casing of one byte.
pub open spec fn lower_byte(b: u8) -> u8 {
    if 65 <= b <= 90 {
        (b + 32) as u8
    } else {
        b
    }
}

/// ASCII lower-casing of a byte sequence.
pub open spec fn lower(s: Seq<u8>) -> Seq<u8> {
    s.map_values(|b: u8| lower_byte(b))
}

/// ASCII lower-casing, executable.
pub fn lower_bytes(s: &Vec<u8>) -> (out: Vec<u8>)
    ensures
        out@ == lower(s@),
{
    let mut out: Vec<u8> = Vec::new();
    let mut i: usize = 0;
    while i < s.len()
        invariant
            0 <= i <= s@.len(),
            out@ == lower(s@.subrange(0, i as int)),
        decreases s@.len() - i,
    {
        let b = s[i];
        if 65 <= b && b <= 90 {
            out.push(b + 32);
        } else {
            out.push(b);
        }
        proof {
            assert(out@ =~= lower(s@.subrange(0, i + 1)));
        }
        i += 1;
    }
    proof {
        assert(s@.subrange(0, s@.len() as int) =~= s@);
    }
    out
}

} // verus!
