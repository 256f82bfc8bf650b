//! Canonical formatting of contract addresses.
//!
//! An address is carried as a hexadecimal string.  Its canonical form is a
//! `0x` prefix followed by exactly 64 hex digits, obtained by stripping an
//! optional `0x` prefix and left-padding the digits with zeros.  The digits
//! themselves are kept as given: case is preserved, and a string that already
//! holds 64 or more digits is only re-prefixed.

use vstd::prelude::*;

verus! {

/// The character sequence with an optional leading `0x` removed.
pub open spec fn strip_hex_prefix(s: Seq<char>) -> Seq<char> {
    if s.len() >= 2 && s[0] == '0' && s[1] == 'x' {
        s.subrange(2, s.len() as int)
    } else {
        s
    }
}

/// The character sequence left-padded with `'0'` up to 64 characters; a
/// sequence already that long is unchanged.
pub open spec fn left_pad_zeros(s: Seq<char>) -> Seq<char> {
    if s.len() >= 64 {
        s
    } else {
        Seq::new((64 - s.len()) as nat, |i: int| '0') + s
    }
}

/// The canonical form of an address string: `0x`, then the bare digits
/// left-padded with zeros to 64 characters.
pub open spec fn normalized(s: Seq<char>) -> Seq<char> {
    seq!['0', 'x'] + left_pad_zeros(strip_hex_prefix(s))
}

/// Normalize an address string to its canonical `0x`-prefixed, zero-padded
/// 64-digit form, preserving the case of the digits given.
pub fn format_address(address: &str) -> (r: String)
    ensures
        r@ == normalized(address@),
{
    proof {
        reveal_strlit("0x");
        reveal_strlit("0");
    }
    let n = address.unicode_len();
    let has_prefix = n >= 2 && address.get_char(0) == '0' && address.get_char(1) == 'x';
    let hex: &str = if has_prefix {
        address.substring_char(2, n)
    } else {
        address
    };
    proof {
        assert(hex@ =~= strip_hex_prefix(address@));
    }
    let hex_len = if has_prefix { n - 2 } else { n };
    let mut r = String::new();
    r.append("0x");
    let mut i: usize = hex_len;
    while i < 64
        invariant
            hex_len <= i,
            i <= 64 || i == hex_len,
            r@ =~= seq!['0', 'x'] + Seq::new((i - hex_len) as nat, |j: int| '0'),
        decreases 64 - i,
    {
        r.append("0");
        proof {
            reveal_strlit("0");
            assert(r@ =~= seq!['0', 'x'] + Seq::new((i + 1 - hex_len) as nat, |j: int| '0'));
        }
        i = i + 1;
    }
    r.append(hex);
    proof {
        assert(r@ =~= normalized(address@));
    }
    r
}

} // verus!
