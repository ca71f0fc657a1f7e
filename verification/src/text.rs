//! Byte-string utilities: equality, containment, substring search, and
//! decimal rendering. Window class names and tooltip texts are handled as
//! UTF-8 byte strings throughout the library; matching ASCII patterns on
//! the raw bytes is exact because UTF-8 never encodes a non-ASCII
//! character with an ASCII byte.
use vstd::prelude::*;
use vstd::slice::slice_subrange;

verus! {

/// The bytes of an ASCII character sequence, one byte per character.
pub open spec fn ascii_bytes(s: Seq<char>) -> Seq<u8> {
    Seq::new(s.len(), |i: int| s[i] as u8)
}

/// Byte-wise equality of two slices.
pub fn bytes_eq(a: &[u8], b: &[u8]) -> (r: bool)
    ensures
        r == (a@ == b@),
{
    if a.len() != b.len() {
        return false;
    }
    let mut i: usize = 0;
    while i < a.len()
        invariant
            i <= a@.len(),
            a@.len() == b@.len(),
            forall|j: int| 0 <= j < i ==> a@[j] == b@[j],
        decreases a@.len() - i,
    {
        if a[i] != b[i] {
            return false;
        }
        i = i + 1;
    }
    proof {
        assert(a@ =~= b@);
    }
    true
}

/// Whether the byte `c` occurs in `s`.
pub open spec fn has_byte(s: Seq<u8>, c: u8) -> bool {
    exists|i: int| 0 <= i < s.len() && s[i] == c
}

/// Search for a single byte.
pub fn contains_byte(s: &[u8], c: u8) -> (r: bool)
    ensures
        r == has_byte(s@, c),
{
    let mut i: usize = 0;
    while i < s.len()
        invariant
            i <= s@.len(),
            forall|j: int| 0 <= j < i ==> s@[j] != c,
        decreases s@.len() - i,
    {
        if s[i] == c {
            return true;
        }
        i = i + 1;
    }
    false
}

/// An ASCII decimal digit.
pub open spec fn is_dec_digit(b: u8) -> bool {
    48 <= b <= 57
}

/// Whether any byte of `s` is an ASCII decimal digit.
pub open spec fn has_dec_digit(s: Seq<u8>) -> bool {
    exists|i: int| 0 <= i < s.len() && is_dec_digit(s[i])
}

/// Search for an ASCII decimal digit.
pub fn contains_dec_digit(s: &[u8]) -> (r: bool)
    ensures
        r == has_dec_digit(s@),
{
    let mut i: usize = 0;
    while i < s.len()
        invariant
            i <= s@.len(),
            forall|j: int| 0 <= j < i ==> !is_dec_digit(s@[j]),
        decreases s@.len() - i,
    {
        if 48 <= s[i] && s[i] <= 57 {
            return true;
        }
        i = i + 1;
    }
    false
}

/// The pattern `p` occurs in `s` starting at position `i`.
pub open spec fn match_at(s: Seq<u8>, p: Seq<u8>, i: int) -> bool {
    0 <= i && i + p.len() <= s.len() && s.subrange(i, i + p.len() as int) == p
}

/// The pattern `p` occurs somewhere in `s`.
pub open spec fn has_sub(s: Seq<u8>, p: Seq<u8>) -> bool {
    exists|i: int| match_at(s, p, i)
}

/// Substring search: does `p` occur in `s`?
pub fn contains_sub(s: &[u8], p: &[u8]) -> (r: bool)
    ensures
        r == has_sub(s@, p@),
{
    let n: usize = s.len();
    let m: usize = p.len();
    if m > n {
        return false;
    }
    if m == 0 {
        proof {
            assert(s@.subrange(0, 0) =~= p@);
            assert(match_at(s@, p@, 0));
        }
        return true;
    }
    let bound: usize = n - m;
    let mut i: usize = 0;
    while i <= bound
        invariant
            n == s@.len(),
            m == p@.len(),
            1 <= m <= n,
            bound == n - m,
            i <= bound + 1,
            forall|k: int| 0 <= k < i ==> !match_at(s@, p@, k),
        decreases bound + 1 - i,
    {
        let w = slice_subrange(s, i, i + m);
        if bytes_eq(w, p) {
            proof {
                assert(match_at(s@, p@, i as int));
            }
            return true;
        }
        i = i + 1;
    }
    proof {
        assert(forall|k: int| match_at(s@, p@, k) ==> 0 <= k <= bound);
    }
    false
}

/// The decimal digits of `n`, most significant first, no leading zeros
/// (a single `0` for zero).
pub open spec fn dec_digits(n: nat) -> Seq<u8>
    decreases n,
{
    if n < 10 {
        seq![(48 + n) as u8]
    } else {
        dec_digits(n / 10).push((48 + n % 10) as u8)
    }
}

/// Append the decimal rendering of `n` to `out`.
pub fn push_dec(out: &mut Vec<u8>, n: u64)
    ensures
        final(out)@ == old(out)@ + dec_digits(n as nat),
    decreases n,
{
    if n < 10 {
        out.push(48 + (n as u8));
        proof {
            assert(final(out)@ =~= old(out)@ + dec_digits(n as nat));
        }
    } else {
        push_dec(out, n / 10);
        out.push(48 + ((n % 10) as u8));
        proof {
            assert(final(out)@ =~= old(out)@ + dec_digits(n as nat));
        }
    }
}

/// Append all of `s` to `out`.
pub fn push_bytes(out: &mut Vec<u8>, s: &[u8])
    ensures
        final(out)@ == old(out)@ + s@,
{
    let mut i: usize = 0;
    while i < s.len()
        invariant
            i <= s@.len(),
            out@ == old(out)@ + s@.subrange(0, i as int),
        decreases s@.len() - i,
    {
        out.push(s[i]);
        proof {
            assert(out@ =~= old(out)@ + s@.subrange(0, i + 1 as int));
        }
        i = i + 1;
    }
    proof {
        assert(s@.subrange(0, s@.len() as int) =~= s@);
    }
}

} // verus!
