//! The chain's native field element, modeled by its value bytes.
//!
//! On the chain every event payload field is a fixed-width field element.  The
//! library holds one as its 32 big-endian value bytes and gives the three
//! readings the event pipeline needs: the fixed-width hexadecimal rendering,
//! and the lenient 8-bit and 64-bit integer readings that coerce an
//! out-of-range value to nothing (the decoder then defaults it to zero).

use vstd::prelude::*;

verus! {

/// A field element, as its 32 big-endian value bytes.
pub struct FieldValue {
    pub bytes: Vec<u8>,
}

impl View for FieldValue {
    type V = Seq<u8>;

    open spec fn view(&self) -> Seq<u8> {
        self.bytes@
    }
}

/// A value fits in 8 bits exactly when every byte above the lowest is zero.
pub open spec fn fits_u8(s: Seq<u8>) -> bool {
    forall|i: int| 0 <= i < 31 ==> s[i] == 0
}

/// A value fits in 64 bits exactly when every byte above the lowest eight is
/// zero.
pub open spec fn fits_u64(s: Seq<u8>) -> bool {
    forall|i: int| 0 <= i < 24 ==> s[i] == 0
}

/// The integer held by the lowest eight bytes, big-endian.
pub open spec fn low_u64_val(s: Seq<u8>) -> int {
    (s[24] as int) * 0x100000000000000 + (s[25] as int) * 0x1000000000000
        + (s[26] as int) * 0x10000000000 + (s[27] as int) * 0x100000000
        + (s[28] as int) * 0x1000000 + (s[29] as int) * 0x10000 + (s[30] as int) * 0x100
        + (s[31] as int)
}

/// The lenient 8-bit reading: the value if it fits, else zero.
pub open spec fn coerced_u8(s: Seq<u8>) -> u8 {
    if fits_u8(s) {
        s[31]
    } else {
        0
    }
}

/// The lenient 64-bit reading: the value if it fits, else zero.
pub open spec fn coerced_u64(s: Seq<u8>) -> u64 {
    if fits_u64(s) {
        low_u64_val(s) as u64
    } else {
        0
    }
}

/// The hexadecimal digit for a nibble, lower case.
pub open spec fn hex_digit(n: u8) -> char {
    if n == 0 {
        '0'
    } else if n == 1 {
        '1'
    } else if n == 2 {
        '2'
    } else if n == 3 {
        '3'
    } else if n == 4 {
        '4'
    } else if n == 5 {
        '5'
    } else if n == 6 {
        '6'
    } else if n == 7 {
        '7'
    } else if n == 8 {
        '8'
    } else if n == 9 {
        '9'
    } else if n == 10 {
        'a'
    } else if n == 11 {
        'b'
    } else if n == 12 {
        'c'
    } else if n == 13 {
        'd'
    } else if n == 14 {
        'e'
    } else {
        'f'
    }
}

/// The hexadecimal rendering of a byte sequence: two lower-case digits per
/// byte, high nibble first.
pub open spec fn hex_of_bytes(s: Seq<u8>) -> Seq<char> {
    Seq::new(
        s.len() * 2,
        |i: int|
            if i % 2 == 0 {
                hex_digit(s[i / 2] >> 4u8)
            } else {
                hex_digit(s[i / 2] & 0xfu8)
            },
    )
}

/// The fixed-width rendering of a field element: `0x` and then two digits per
/// byte, 66 characters in all for 32 bytes.
pub open spec fn fixed_hex(s: Seq<u8>) -> Seq<char> {
    seq!['0', 'x'] + hex_of_bytes(s)
}

impl FieldValue {
    /// A field element always carries exactly 32 bytes.
    pub open spec fn wf(self) -> bool {
        self.bytes@.len() == 32
    }

    /// Build a field element from its 32 big-endian value bytes; any other
    /// length is refused.
    pub fn from_bytes(bytes: Vec<u8>) -> (r: Option<FieldValue>)
        ensures
            r is Some <==> bytes@.len() == 32,
            r matches Some(f) ==> f@ == bytes@ && f.wf(),
    {
        if bytes.len() == 32 {
            Some(FieldValue { bytes })
        } else {
            None
        }
    }

    /// The value as an 8-bit integer, if it fits.
    pub fn to_u8(&self) -> (r: Option<u8>)
        requires
            self.wf(),
        ensures
            r is Some <==> fits_u8(self@),
            r matches Some(v) ==> v == self@[31],
    {
        let mut i: usize = 0;
        while i < 31
            invariant
                i <= 31,
                self.wf(),
                forall|j: int| 0 <= j < i ==> self@[j] == 0,
            decreases 31 - i,
        {
            if self.bytes[i] != 0 {
                return None;
            }
            i = i + 1;
        }
        Some(self.bytes[31])
    }

    /// The value as a 64-bit integer, if it fits.
    pub fn to_u64(&self) -> (r: Option<u64>)
        requires
            self.wf(),
        ensures
            r is Some <==> fits_u64(self@),
            r matches Some(v) ==> v == low_u64_val(self@),
    {
        let mut i: usize = 0;
        while i < 24
            invariant
                i <= 24,
                self.wf(),
                forall|j: int| 0 <= j < i ==> self@[j] == 0,
            decreases 24 - i,
        {
            if self.bytes[i] != 0 {
                return None;
            }
            i = i + 1;
        }
        let v: u64 = (self.bytes[24] as u64) * 0x100000000000000 + (self.bytes[25] as u64)
            * 0x1000000000000 + (self.bytes[26] as u64) * 0x10000000000 + (self.bytes[27] as u64)
            * 0x100000000 + (self.bytes[28] as u64) * 0x1000000 + (self.bytes[29] as u64) * 0x10000
            + (self.bytes[30] as u64) * 0x100 + (self.bytes[31] as u64);
        Some(v)
    }

    /// The fixed-width hexadecimal rendering: `0x` and 64 lower-case digits.
    pub fn to_fixed_hex(&self) -> (r: String)
        requires
            self.wf(),
        ensures
            r@ == fixed_hex(self@),
            r@.len() == 66,
    {
        proof {
            reveal_strlit("0x");
        }
        let mut r = String::new();
        r.append("0x");
        proof {
            assert(r@ =~= seq!['0', 'x'] + hex_of_bytes(self@).subrange(0, 0));
        }
        let mut i: usize = 0;
        while i < 32
            invariant
                i <= 32,
                self.wf(),
                r@ =~= seq!['0', 'x'] + hex_of_bytes(self@).subrange(0, 2 * i),
            decreases 32 - i,
        {
            let b = self.bytes[i];
            proof {
                assert(b >> 4u8 < 16 && b & 0xfu8 < 16) by (bit_vector);
            }
            r.append(hex_digit_str(b >> 4u8));
            r.append(hex_digit_str(b & 0xfu8));
            proof {
                assert(r@ =~= seq!['0', 'x'] + hex_of_bytes(self@).subrange(0, 2 * (i + 1)));
            }
            i = i + 1;
        }
        proof {
            assert(hex_of_bytes(self@).subrange(0, 64) =~= hex_of_bytes(self@));
            assert(r@ =~= fixed_hex(self@));
        }
        r
    }
}

/// The one-character string for a nibble's hexadecimal digit.
fn hex_digit_str(n: u8) -> (r: &'static str)
    requires
        n < 16,
    ensures
        r@ == seq![hex_digit(n)],
{
    proof {
        reveal_strlit("0");
        reveal_strlit("1");
        reveal_strlit("2");
        reveal_strlit("3");
        reveal_strlit("4");
        reveal_strlit("5");
        reveal_strlit("6");
        reveal_strlit("7");
        reveal_strlit("8");
        reveal_strlit("9");
        reveal_strlit("a");
        reveal_strlit("b");
        reveal_strlit("c");
        reveal_strlit("d");
        reveal_strlit("e");
        reveal_strlit("f");
    }
    match n {
        0 => "0",
        1 => "1",
        2 => "2",
        3 => "3",
        4 => "4",
        5 => "5",
        6 => "6",
        7 => "7",
        8 => "8",
        9 => "9",
        10 => "a",
        11 => "b",
        12 => "c",
        13 => "d",
        14 => "e",
        _ => "f",
    }
}

} // verus!
