//! Repository information helpers: hexadecimal rendering of object
//! hashes.

use vstd::prelude::*;
use vstd::string::*;

use crate::strutil::push_char;

verus! {

/// The lowercase hexadecimal digit of a value below sixteen.
pub open spec fn hex_digit(v: u8) -> char
    recommends
        v < 16,
{
    if v < 10 {
        (('0' as u8) + v) as char
    } else {
        (('a' as u8) + (v - 10)) as char
    }
}

/// The lowercase hexadecimal rendering of a byte sequence: two digits for
/// each byte, high nibble first.
pub open spec fn hex_of(b: Seq<u8>) -> Seq<char> {
    Seq::new(
        b.len() * 2,
        |j: int|
            if j % 2 == 0 {
                hex_digit(b[j / 2] >> 4)
            } else {
                hex_digit(b[j / 2] & 0xf)
            },
    )
}

/// The provider of repository information.
pub struct Git {}

impl Git {
    /// Convert bytes to their hexadecimal string representation, cut to
    /// the first `len` characters.
    pub fn bytes_to_hexstr(bytes: &Vec<u8>, len: usize) -> (r: String)
        ensures
            r@ == hex_of(bytes@).take(if len < bytes@.len() * 2 {
                len as int
            } else {
                bytes@.len() * 2 as int
            }),
    {
        let mut s = String::new();
        let mut i: usize = 0;
        proof {
            assert(s@ =~= hex_of(bytes@).take(0));
        }
        while i < bytes.len()
            invariant
                i <= bytes@.len(),
                s@ =~= hex_of(bytes@).take(2 * i),
                s@.len() == 2 * i,
            decreases bytes@.len() - i,
        {
            let b = bytes[i];
            proof {
                assert((b >> 4) < 16 && (b & 0xf) < 16) by (bit_vector);
            }
            let hi = hex_digit_char(b >> 4);
            let lo = hex_digit_char(b & 0xf);
            push_char(&mut s, hi);
            push_char(&mut s, lo);
            i = i + 1;
            proof {
                assert(s@ =~= hex_of(bytes@).take(2 * i));
            }
        }
        if len < s.as_str().unicode_len() {
            let cut = s.as_str().substring_char(0, len);
            let r = String::from_str(cut);
            proof {
                assert(r@ =~= hex_of(bytes@).take(len as int));
            }
            r
        } else {
            proof {
                assert(s@ =~= hex_of(bytes@).take(bytes@.len() * 2 as int));
            }
            s
        }
    }
}

/// The lowercase hexadecimal digit character of a value below sixteen.
fn hex_digit_char(v: u8) -> (r: char)
    requires
        v < 16,
    ensures
        r == hex_digit(v),
{
    if v < 10 {
        (48 + v) as char
    } else {
        (97 + (v - 10)) as char
    }
}

} // verus!
