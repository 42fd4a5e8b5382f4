//! Wide-string preparation: the platform's native calls take paths as
//! null-terminated UTF-16, so the library encodes its strings itself,
//! surrogate pairs included.

use vstd::prelude::*;

verus! {

/// The UTF-16 code units of one character: the code point itself below
/// the surrogate range boundary, a high/low surrogate pair above it.
pub open spec fn utf16_units(c: char) -> Seq<u16> {
    if (c as u32) < 0x10000 {
        seq![(c as u32) as u16]
    } else {
        seq![
            (0xD800 + (((c as u32) - 0x10000) / 0x400)) as u16,
            (0xDC00 + (((c as u32) - 0x10000) % 0x400)) as u16,
        ]
    }
}

/// The UTF-16 encoding of a string, character by character.
pub open spec fn utf16_of(s: Seq<char>) -> Seq<u16>
    decreases s.len(),
{
    if s.len() == 0 {
        Seq::<u16>::empty()
    } else {
        utf16_of(s.drop_last()) + utf16_units(s.last())
    }
}

/// Encodes a string as null-terminated UTF-16, as the native calls
/// consume it.
pub fn encode_wide_null(s: &str) -> (r: Vec<u16>)
    ensures
        r@ == utf16_of(s@) + seq![0u16],
{
    let n = s.unicode_len();
    let mut out: Vec<u16> = Vec::new();
    let mut i: usize = 0;
    while i < n
        invariant
            i <= n,
            n == s@.len(),
            out@ == utf16_of(s@.take(i as int)),
        decreases n - i,
    {
        let c = s.get_char(i);
        let v = c as u32;
        if v < 0x10000 {
            out.push(v as u16);
        } else {
            let off: u32 = v - 0x10000;
            out.push((0xD800 + off / 0x400) as u16);
            out.push((0xDC00 + off % 0x400) as u16);
        }
        proof {
            assert(s@.take(i + 1).drop_last() =~= s@.take(i as int));
            assert(s@.take(i + 1).last() == s@[i as int]);
            assert(out@ =~= utf16_of(s@.take(i as int)) + utf16_units(s@[i as int]));
        }
        i = i + 1;
    }
    proof {
        assert(s@.take(n as int) =~= s@);
    }
    out.push(0);
    out
}

} // verus!
