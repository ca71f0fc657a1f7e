//! Conversions between the library's byte strings and the window system's
//! wide (16-bit) strings. The class names this library deals in are all
//! ASCII, so the encoder takes ASCII bytes; the decoder maps any unit
//! outside the ASCII range to `?` and trims the trailing NUL padding a
//! fixed-size name buffer comes with.
use vstd::prelude::*;

verus! {

/// Encode ASCII bytes as wide units with a terminating NUL.
pub fn ascii_to_wide(s: &[u8]) -> (w: Vec<u16>)
    requires
        forall|i: int| 0 <= i < s@.len() ==> s@[i] < 128,
    ensures
        w@.len() == s@.len() + 1,
        forall|i: int| 0 <= i < s@.len() ==> w@[i] == s@[i] as u16,
        w@[s@.len() as int] == 0,
{
    let mut w: Vec<u16> = Vec::new();
    let mut i: usize = 0;
    while i < s.len()
        invariant
            i <= s@.len(),
            w@.len() == i,
            forall|j: int| 0 <= j < i ==> w@[j] == s@[j] as u16,
        decreases s@.len() - i,
    {
        w.push(s[i] as u16);
        i = i + 1;
    }
    w.push(0);
    w
}

/// The byte a wide unit decodes to: itself in the ASCII range, `?` beyond.
pub open spec fn unit_byte(u: u16) -> u8 {
    if u < 128 {
        u as u8
    } else {
        '?' as u8
    }
}

/// The bytes of a wide string, unit by unit.
pub open spec fn wide_bytes(w: Seq<u16>) -> Seq<u8> {
    w.map_values(|u: u16| unit_byte(u))
}

/// A byte string with its trailing NUL bytes removed.
pub open spec fn trim_trailing_nul(s: Seq<u8>) -> Seq<u8>
    decreases s.len(),
{
    if s.len() > 0 && s.last() == 0 {
        trim_trailing_nul(s.drop_last())
    } else {
        s
    }
}

/// Decode a wide buffer to bytes: ASCII units kept, others replaced by
/// `?`, trailing NULs trimmed.
pub fn wide_to_ascii(w: &[u16]) -> (s: Vec<u8>)
    ensures
        s@ == trim_trailing_nul(wide_bytes(w@)),
{
    let mut end: usize = w.len();
    proof {
        assert(w@.subrange(0, end as int) =~= w@);
    }
    while end > 0 && w[end - 1] == 0
        invariant
            end <= w@.len(),
            trim_trailing_nul(wide_bytes(w@)) == trim_trailing_nul(
                wide_bytes(w@.subrange(0, end as int)),
            ),
        decreases end,
    {
        proof {
            let cur = wide_bytes(w@.subrange(0, end as int));
            let shorter = wide_bytes(w@.subrange(0, end - 1));
            assert(cur.last() == unit_byte(w@[end - 1]));
            assert(cur.drop_last() =~= shorter);
        }
        end = end - 1;
    }
    proof {
        let cur = wide_bytes(w@.subrange(0, end as int));
        if end > 0 {
            assert(cur.last() == unit_byte(w@[end - 1]));
            assert(cur.last() != 0);
        }
        assert(trim_trailing_nul(cur) =~= cur);
    }
    let mut s: Vec<u8> = Vec::new();
    let mut i: usize = 0;
    while i < end
        invariant
            i <= end,
            end <= w@.len(),
            s@.len() == i,
            forall|j: int| 0 <= j < i ==> s@[j] == unit_byte(w@[j]),
        decreases end - i,
    {
        let u = w[i];
        if u < 128 {
            s.push(u as u8);
        } else {
            s.push('?' as u8);
        }
        i = i + 1;
    }
    proof {
        assert(s@ =~= wide_bytes(w@.subrange(0, end as int)));
    }
    s
}

} // verus!
