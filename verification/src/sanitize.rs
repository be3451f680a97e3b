//! Credential hygiene: every diagnostic message that leaves the library is
//! scrubbed so that the configured credential never appears in it.
//!
//! Each occurrence of the credential is replaced by a single `*`; when the
//! credential itself holds a `*` (so that marker could recombine with its
//! surroundings), a contaminated message is blanked instead of rewritten.
use crate::bytestr::{contains_byte, contains_bytes, copy_bytes, has_substring, has_substring_at,
    matches_prefix_at};
use vstd::prelude::*;

verus! {

/// The redaction marker byte, `*`.
pub open spec fn marker() -> u8 {
    42
}

/// `s` with every occurrence of `cred` (scanned left to right) replaced by
/// one marker byte.
pub open spec fn redacted(s: Seq<u8>, cred: Seq<u8>) -> Seq<u8>
    decreases s.len(),
{
    if cred.len() == 0 || s.len() < cred.len() {
        s
    } else if s.subrange(0, cred.len() as int) == cred {
        seq![marker()] + redacted(s.skip(cred.len() as int), cred)
    } else {
        seq![s[0]] + redacted(s.skip(1), cred)
    }
}

/// The scrubbed form of a message: marker replacement in the common case,
/// a blank message when the credential holds the marker byte itself and the
/// message is contaminated.
pub open spec fn sanitized(msg: Seq<u8>, cred: Seq<u8>) -> Seq<u8> {
    if cred.len() == 0 {
        msg
    } else if cred.contains(marker()) {
        if has_substring(msg, cred) {
            Seq::empty()
        } else {
            msg
        }
    } else {
        redacted(msg, cred)
    }
}

/// A marker-free prefix of the redacted sequence copies the input, and a
/// nonempty one certifies that the credential did not match at the front.
proof fn lemma_redacted_prefix(s: Seq<u8>, cred: Seq<u8>, j: int)
    requires
        cred.len() > 0,
        0 <= j <= redacted(s, cred).len(),
        forall|i: int| 0 <= i < j ==> redacted(s, cred)[i] != marker(),
    ensures
        j <= s.len(),
        redacted(s, cred).subrange(0, j) == s.subrange(0, j),
        j >= 1 && s.len() >= cred.len() ==> s.subrange(0, cred.len() as int) != cred,
    decreases s.len(),
{
    let r = redacted(s, cred);
    if j == 0 {
        assert(r.subrange(0, 0) =~= s.subrange(0, 0));
    } else if s.len() < cred.len() {
        assert(r == s);
        assert(r.subrange(0, j) =~= s.subrange(0, j));
    } else if s.subrange(0, cred.len() as int) == cred {
        assert(r[0] == marker());
        assert(false);
    } else {
        let tail = redacted(s.skip(1), cred);
        assert(r == seq![s[0]] + tail);
        assert(forall|i: int| 0 <= i < j - 1 ==> tail[i] == r[i + 1] && tail[i] != marker());
        lemma_redacted_prefix(s.skip(1), cred, j - 1);
        assert(tail.subrange(0, j - 1) == s.skip(1).subrange(0, j - 1));
        assert forall|i: int| 0 <= i < j implies r[i] == s[i] by {
            if i >= 1 {
                assert(r[i] == tail[i - 1]);
                assert(tail[i - 1] == tail.subrange(0, j - 1)[i - 1]);
                assert(s.skip(1).subrange(0, j - 1)[i - 1] == s.skip(1)[i - 1]);
                assert(s.skip(1)[i - 1] == s[i]);
            }
        }
        assert(r.subrange(0, j) =~= s.subrange(0, j));
    }
}

/// After redaction the credential occurs nowhere in the result.
proof fn lemma_redacted_clean(s: Seq<u8>, cred: Seq<u8>)
    requires
        cred.len() > 0,
        !cred.contains(marker()),
    ensures
        !has_substring(redacted(s, cred), cred),
    decreases s.len(),
{
    let r = redacted(s, cred);
    let cl = cred.len() as int;
    if has_substring(r, cred) {
        let i = choose|i: int| has_substring_at(r, cred, i);
        assert(r.subrange(i, i + cl) == cred);
        assert(forall|k: int| 0 <= k < cl ==> r[i + k] == cred[k]);
        if s.len() < cred.len() {
            assert(r == s);
            assert(false);
        } else if s.subrange(0, cl) == cred {
            let tail = redacted(s.skip(cl), cred);
            assert(r == seq![marker()] + tail);
            lemma_redacted_clean(s.skip(cl), cred);
            if i == 0 {
                assert(cred[0] == r[0]);
                assert(r[0] == marker());
                assert(cred.contains(marker()));
                assert(false);
            } else {
                assert forall|k: int| 0 <= k < cl implies tail[i - 1 + k] == cred[k] by {
                    assert(r[i + k] == tail[i - 1 + k]);
                }
                assert(tail.subrange(i - 1, i - 1 + cl) =~= cred);
                assert(has_substring_at(tail, cred, i - 1));
                assert(false);
            }
        } else {
            let tail = redacted(s.skip(1), cred);
            assert(r == seq![s[0]] + tail);
            lemma_redacted_clean(s.skip(1), cred);
            if i == 0 {
                assert(forall|k: int| 0 <= k < cl ==> r[k] == cred[k] && cred[k] != marker());
                lemma_redacted_prefix(s, cred, cl);
                assert(r.subrange(0, cl) == s.subrange(0, cl));
                assert(s.subrange(0, cl) == cred);
                assert(false);
            } else {
                assert forall|k: int| 0 <= k < cl implies tail[i - 1 + k] == cred[k] by {
                    assert(r[i + k] == tail[i - 1 + k]);
                }
                assert(tail.subrange(i - 1, i - 1 + cl) =~= cred);
                assert(has_substring_at(tail, cred, i - 1));
                assert(false);
            }
        }
    }
}

/// Credential hygiene: a nonempty credential never survives sanitization as
/// a substring of the scrubbed message, whatever the message was.
pub proof fn lemma_sanitized_hides_credential(msg: Seq<u8>, cred: Seq<u8>)
    requires
        cred.len() > 0,
    ensures
        !has_substring(sanitized(msg, cred), cred),
{
    if cred.contains(marker()) {
        if has_substring(msg, cred) {
            assert(forall|i: int| !has_substring_at(Seq::<u8>::empty(), cred, i));
        }
    } else {
        lemma_redacted_clean(msg, cred);
    }
}

/// Scrub a message: replace every occurrence of the credential, exactly as
/// [`sanitized`] describes.
pub fn sanitize_message(msg: &Vec<u8>, cred: &Vec<u8>) -> (out: Vec<u8>)
    ensures
        out@ == sanitized(msg@, cred@),
{
    if cred.len() == 0 {
        return copy_bytes(msg);
    }
    if contains_byte(cred, 42) {
        assert(cred@.contains(marker()));
        if contains_bytes(msg, cred) {
            let out: Vec<u8> = Vec::new();
            assert(out@ =~= Seq::<u8>::empty());
            return out;
        } else {
            return copy_bytes(msg);
        }
    }
    let mut out: Vec<u8> = Vec::new();
    let mut i: usize = 0;
    let ml: usize = msg.len();
    let cl: usize = cred.len();
    proof {
        assert(msg@.skip(0) =~= msg@);
    }
    while i < ml
        invariant
            0 <= i <= ml,
            ml == msg@.len(),
            1 <= cl == cred@.len(),
            redacted(msg@, cred@) == out@ + redacted(msg@.skip(i as int), cred@),
        decreases ml - i,
    {
        let ghost rest = msg@.skip(i as int);
        if cl <= ml - i && matches_prefix_at(msg, cred, i) {
            out.push(42);
            proof {
                assert(rest.subrange(0, cl as int) =~= msg@.subrange(i as int, i + cl));
                assert(rest.skip(cl as int) =~= msg@.skip(i + cl));
                assert(redacted(rest, cred@) == seq![marker()] + redacted(msg@.skip(i + cl), cred@));
            }
            i += cl;
        } else {
            out.push(msg[i]);
            proof {
                assert(rest.skip(1) =~= msg@.skip(i + 1));
                if i + cl <= ml {
                    assert(rest.subrange(0, cl as int) =~= msg@.subrange(i as int, i + cl));
                    assert(rest.subrange(0, cl as int) != cred@);
                    assert(redacted(rest, cred@) == seq![rest[0]] + redacted(msg@.skip(i + 1), cred@));
                } else {
                    assert(rest.len() < cred@.len());
                    assert(redacted(rest, cred@) == rest);
                    assert(redacted(msg@.skip(i + 1), cred@) == msg@.skip(i + 1));
                    assert(rest =~= seq![rest[0]] + msg@.skip(i + 1));
                }
                assert(rest[0] == msg@[i as int]);
            }
            i += 1;
        }
    }
    proof {
        assert(msg@.skip(ml as int) =~= Seq::<u8>::empty());
        assert(redacted(Seq::<u8>::empty(), cred@) == Seq::<u8>::empty());
        assert(out@ + Seq::<u8>::empty() =~= out@);
    }
    out
}

} // verus!
