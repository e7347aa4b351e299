//! Platform string helpers: encoding text into the NUL-terminated wide
//! (UTF-16) form that platform interfaces expect.

use vstd::prelude::*;

verus! {

/// The UTF-16 code units that encode one character: a single unit for a
/// scalar below `0x10000`, and a surrogate pair for anything above.
pub open spec fn utf16_units_of(c: char) -> Seq<u16> {
    let u = c as u32;
    if u < 0x10000 {
        seq![u as u16]
    } else {
        seq![
            (0xD800 + (u - 0x10000) / 0x400) as u16,
            (0xDC00 + (u - 0x10000) % 0x400) as u16,
        ]
    }
}

/// The UTF-16 encoding of a character sequence, in order, without a
/// terminator.
pub open spec fn utf16_of(chars: Seq<char>) -> Seq<u16>
    decreases chars.len(),
{
    if chars.len() == 0 {
        Seq::empty()
    } else {
        utf16_of(chars.drop_last()) + utf16_units_of(chars.last())
    }
}

/// Encode a string as UTF-16 code units with a trailing NUL, the form the
/// platform's wide-string interfaces take.
pub fn encode_wide(string: &str) -> (r: Vec<u16>)
    ensures
        r@ == utf16_of(string@).push(0u16),
{
    broadcast use vstd::utf8::char_is_scalar;

    let mut out: Vec<u16> = Vec::new();
    let n = string.unicode_len();
    let mut i: usize = 0;
    while i < n
        invariant
            i <= n,
            n == string@.len(),
            out@ == utf16_of(string@.take(i as int)),
        decreases n - i,
    {
        let c = string.get_char(i);
        let u = c as u32;
        if u < 0x10000 {
            out.push(u as u16);
        } else {
            let v = u - 0x10000;
            assert(v / 0x400 < 0x400) by (nonlinear_arith)
                requires
                    v <= 0xFFFFF,
            ;
            let hi = 0xD800 + v / 0x400;
            let lo = 0xDC00 + v % 0x400;
            out.push(hi as u16);
            out.push(lo as u16);
        }
        proof {
            assert(string@.take(i + 1).drop_last() =~= string@.take(i as int));
            assert(string@.take(i + 1).last() == string@[i as int]);
        }
        i += 1;
    }
    proof {
        assert(string@.take(n as int) =~= string@);
    }
    out.push(0);
    out
}

} // verus!
