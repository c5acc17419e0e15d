//! Helpers on byte strings.
//!
//! Paths, directory-entry names and backup suffixes are all POSIX byte
//! strings, so the whole library models them as `Vec<u8>` / `&[u8]` and the
//! contracts speak of `Seq<u8>`.

use vstd::prelude::*;

verus! {

/// ASCII code of `/`.
pub const SLASH: u8 = 47;

/// ASCII code of `.`.
pub const DOT: u8 = 46;

/// ASCII code of `~`.
pub const TILDE: u8 = 126;

/// ASCII code of `0`; the other digits follow it.
pub const DIGIT_ZERO: u8 = 48;

/// Byte-wise equality of two byte strings.
pub fn bytes_eq(a: &[u8], b: &[u8]) -> (r: bool)
    ensures
        r == (a@ == b@),
{
    if a.len() != b.len() {
        assert(a@ != b@) by {
            assert(a@.len() != b@.len());
        }
        return false;
    }
    let mut i: usize = 0;
    while i < a.len()
        invariant
            0 <= i <= a@.len(),
            a@.len() == b@.len(),
            forall|j: int| 0 <= j < i ==> a@[j] == b@[j],
        decreases a@.len() - i,
    {
        if a[i] != b[i] {
            assert(a@ != b@) by {
                assert(a@[i as int] != b@[i as int]);
            }
            return false;
        }
        i += 1;
    }
    proof {
        assert(a@ =~= b@);
    }
    true
}

/// Does `a` start with `prefix`?
pub fn starts_with_bytes(a: &[u8], prefix: &[u8]) -> (r: bool)
    ensures
        r == prefix@.is_prefix_of(a@),
{
    if prefix.len() > a.len() {
        return false;
    }
    let mut i: usize = 0;
    while i < prefix.len()
        invariant
            0 <= i <= prefix@.len(),
            prefix@.len() <= a@.len(),
            forall|j: int| 0 <= j < i ==> a@[j] == prefix@[j],
        decreases prefix@.len() - i,
    {
        if a[i] != prefix[i] {
            assert(!prefix@.is_prefix_of(a@)) by {
                assert(a@.subrange(0, prefix@.len() as int)[i as int] != prefix@[i as int]);
            }
            return false;
        }
        i += 1;
    }
    proof {
        assert(a@.subrange(0, prefix@.len() as int) =~= prefix@);
    }
    true
}

/// Does `a` end with `suffix`?
pub fn ends_with_bytes(a: &[u8], suffix: &[u8]) -> (r: bool)
    ensures
        r == suffix@.is_suffix_of(a@),
{
    if suffix.len() > a.len() {
        return false;
    }
    let offset: usize = a.len() - suffix.len();
    let mut i: usize = 0;
    while i < suffix.len()
        invariant
            0 <= i <= suffix@.len(),
            offset + suffix@.len() == a@.len(),
            a@.len() <= usize::MAX,
            forall|j: int| 0 <= j < i ==> a@[offset + j] == suffix@[j],
        decreases suffix@.len() - i,
    {
        if a[offset + i] != suffix[i] {
            assert(!suffix@.is_suffix_of(a@)) by {
                assert(a@.subrange(a@.len() - suffix@.len(), a@.len() as int)[i as int]
                    != suffix@[i as int]);
            }
            return false;
        }
        i += 1;
    }
    proof {
        assert(a@.subrange(a@.len() - suffix@.len(), a@.len() as int) =~= suffix@);
    }
    true
}

/// Does `needle` occur in `a` starting at position `at`?
pub open spec fn matches_at(a: Seq<u8>, needle: Seq<u8>, at: int) -> bool {
    0 <= at && at + needle.len() <= a.len() && a.subrange(at, at + needle.len()) == needle
}

/// Does `needle` occur anywhere in `a`?
pub open spec fn contains_seq(a: Seq<u8>, needle: Seq<u8>) -> bool {
    exists|at: int| matches_at(a, needle, at)
}

fn matches_at_exec(a: &[u8], needle: &[u8], at: usize) -> (r: bool)
    requires
        at + needle@.len() <= a@.len(),
    ensures
        r == matches_at(a@, needle@, at as int),
{
    let alen: usize = a.len();
    let mut i: usize = 0;
    while i < needle.len()
        invariant
            0 <= i <= needle@.len(),
            at + needle@.len() <= a@.len(),
            a@.len() <= usize::MAX,
            forall|j: int| 0 <= j < i ==> a@[at + j] == needle@[j],
        decreases needle@.len() - i,
    {
        if a[at + i] != needle[i] {
            assert(!matches_at(a@, needle@, at as int)) by {
                assert(a@.subrange(at as int, at + needle@.len())[i as int] != needle@[i as int]);
            }
            return false;
        }
        i += 1;
    }
    proof {
        assert(a@.subrange(at as int, at + needle@.len()) =~= needle@);
    }
    true
}

/// Substring search, byte-wise.
pub fn contains_bytes(a: &[u8], needle: &[u8]) -> (r: bool)
    ensures
        r == contains_seq(a@, needle@),
{
    if needle.len() > a.len() {
        return false;
    }
    if needle.len() == 0 {
        proof {
            assert(matches_at(a@, needle@, 0)) by {
                assert(a@.subrange(0, 0) =~= needle@);
            }
        }
        return true;
    }
    let last: usize = a.len() - needle.len();
    let mut at: usize = 0;
    loop
        invariant
            0 <= at <= last + 1,
            last + needle@.len() == a@.len(),
            a@.len() <= usize::MAX,
            needle@.len() >= 1,
            forall|k: int| 0 <= k < at ==> !matches_at(a@, needle@, k),
        ensures
            (exists|k: int| matches_at(a@, needle@, k)) == contains_seq(a@, needle@),
        decreases last + 1 - at,
    {
        if at > last {
            assert(!contains_seq(a@, needle@)) by {
                assert(forall|k: int| matches_at(a@, needle@, k) ==> 0 <= k <= last);
            }
            return false;
        }
        if matches_at_exec(a, needle, at) {
            return true;
        }
        at += 1;
    }
}

/// Append a byte string to a growing buffer.
pub fn append_bytes(dst: &mut Vec<u8>, src: &[u8])
    ensures
        final(dst)@ == old(dst)@ + src@,
{
    let mut i: usize = 0;
    while i < src.len()
        invariant
            0 <= i <= src@.len(),
            dst@ == old(dst)@ + src@.subrange(0, i as int),
        decreases src@.len() - i,
    {
        dst.push(src[i]);
        proof {
            assert(old(dst)@ + src@.subrange(0, i as int) + seq![src@[i as int]]
                =~= old(dst)@ + src@.subrange(0, i + 1));
        }
        i += 1;
    }
    proof {
        assert(old(dst)@ + src@.subrange(0, src@.len() as int) =~= old(dst)@ + src@);
    }
}

/// Copy a byte string.
pub fn clone_bytes(v: &Vec<u8>) -> (r: Vec<u8>)
    ensures
        r@ == v@,
{
    vstd::slice::slice_to_vec(v.as_slice())
}

/// The decimal digits of `n`, most significant first.
pub open spec fn dec_digits(n: nat) -> Seq<u8>
    decreases n,
{
    if n < 10 {
        seq![(DIGIT_ZERO + n) as u8]
    } else {
        dec_digits(n / 10) + seq![(DIGIT_ZERO + n % 10) as u8]
    }
}

/// Render `n` in decimal.
pub fn u64_to_dec(n: u64) -> (r: Vec<u8>)
    ensures
        r@ == dec_digits(n as nat),
    decreases n,
{
    if n < 10 {
        let mut v: Vec<u8> = Vec::new();
        v.push(DIGIT_ZERO + (n as u8));
        proof {
            assert(v@ =~= dec_digits(n as nat));
        }
        v
    } else {
        let mut v = u64_to_dec(n / 10);
        v.push(DIGIT_ZERO + ((n % 10) as u8));
        proof {
            assert(v@ =~= dec_digits(n as nat));
        }
        v
    }
}

} // verus!
