//! Hexadecimal digits and lowercase `0x`-prefixed rendering of byte strings,
//! as transaction hashes are reported.

use vstd::prelude::*;

verus! {

/// An ASCII byte that is a hexadecimal digit (`0-9`, `a-f`, `A-F`).
pub open spec fn is_hex_digit(b: u8) -> bool {
    (48 <= b && b <= 57) || (97 <= b && b <= 102) || (65 <= b && b <= 70)
}

/// The value of a hexadecimal digit byte.
pub open spec fn hex_val(b: u8) -> nat {
    if 48 <= b && b <= 57 {
        (b - 48) as nat
    } else if 97 <= b && b <= 102 {
        (b - 87) as nat
    } else {
        (b - 55) as nat
    }
}

/// The lowercase ASCII digit for a nibble value below 16.
pub open spec fn hex_digit_of(n: nat) -> u8 {
    if n < 10 {
        (48 + n) as u8
    } else {
        (87 + n) as u8
    }
}

/// The lowercase hexadecimal rendering of a byte string: two digits per
/// byte, high nibble first.
pub open spec fn spec_hex_lower(bs: Seq<u8>) -> Seq<u8> {
    Seq::new(
        2 * bs.len(),
        |i: int|
            if i % 2 == 0 {
                hex_digit_of((bs[i / 2] >> 4) as nat)
            } else {
                hex_digit_of((bs[i / 2] & 15) as nat)
            },
    )
}

/// The `0x`-prefixed lowercase hexadecimal rendering, as a character
/// sequence (every byte of it is ASCII).
pub open spec fn spec_hex_chars_0x(bs: Seq<u8>) -> Seq<char> {
    (seq![48u8, 120u8] + spec_hex_lower(bs)).map_values(|b: u8| b as char)
}

/// Exec counterpart of `hex_digit_of`.
fn hex_digit_lower(n: u8) -> (r: u8)
    requires
        n < 16,
    ensures
        r == hex_digit_of(n as nat),
        r < 128,
{
    if n < 10 {
        48 + n
    } else {
        87 + n
    }
}

/// Relies on `String::from_utf8`: a vector of ASCII bytes is valid UTF-8
/// and decodes to exactly those characters.
#[verifier::external_body]
fn ascii_to_string(v: Vec<u8>) -> (r: String)
    requires
        forall|i: int| 0 <= i < v@.len() ==> v@[i] < 128,
    ensures
        r@ == v@.map_values(|b: u8| b as char),
{
    String::from_utf8(v).unwrap_or_default()
}

/// Render a byte string as `0x` followed by its lowercase hexadecimal
/// digits, two per byte.
pub fn hex_string_0x(bs: &Vec<u8>) -> (r: String)
    ensures
        r@ == spec_hex_chars_0x(bs@),
{
    let mut out: Vec<u8> = Vec::new();
    out.push(48);
    out.push(120);
    let mut i: usize = 0;
    while i < bs.len()
        invariant
            i <= bs@.len(),
            out@.len() == 2 + 2 * i,
            out@ == (seq![48u8, 120u8] + spec_hex_lower(bs@)).take(2 + 2 * i),
            forall|j: int| 0 <= j < out@.len() ==> out@[j] < 128,
        decreases bs@.len() - i,
    {
        let b = bs[i];
        let hi = b >> 4;
        let lo = b & 15;
        proof {
            assert(hi < 16 && lo < 16) by (bit_vector)
                requires
                    hi == b >> 4,
                    lo == b & 15,
            ;
        }
        out.push(hex_digit_lower(hi));
        out.push(hex_digit_lower(lo));
        proof {
            let full = seq![48u8, 120u8] + spec_hex_lower(bs@);
            assert(full[2 + 2 * i as int] == hex_digit_of((bs@[i as int] >> 4) as nat));
            assert(full[2 + 2 * i as int + 1] == hex_digit_of((bs@[i as int] & 15) as nat));
            assert(out@ =~= full.take(2 + 2 * (i + 1)));
        }
        i += 1;
    }
    proof {
        assert(out@ =~= seq![48u8, 120u8] + spec_hex_lower(bs@));
    }
    ascii_to_string(out)
}

} // verus!
