//! Destination addresses: a 20-byte identifier written as a hex string,
//! with an optional `0x` prefix and exactly forty hex digits. Anything else
//! is rejected before any network interaction.

use vstd::prelude::*;
use vstd::string::StringSliceAdditionalSpecFns;
use crate::hex::{hex_val, is_hex_digit};

verus! {

/// The digit portion of an address string: the bytes after an optional
/// `0x` prefix.
pub open spec fn spec_addr_digits(s: Seq<u8>) -> Seq<u8> {
    if s.len() >= 2 && s[0] == 48 && s[1] == 120 {
        s.skip(2)
    } else {
        s
    }
}

/// A well-formed address string: optional `0x` prefix, then exactly forty
/// hexadecimal digits.
pub open spec fn spec_is_address(s: Seq<u8>) -> bool {
    &&& spec_addr_digits(s).len() == 40
    &&& forall|i: int| 0 <= i < 40 ==> is_hex_digit(#[trigger] spec_addr_digits(s)[i])
}

/// The twenty bytes a well-formed address string denotes, big-endian pair
/// of digits per byte.
pub open spec fn spec_address_bytes(s: Seq<u8>) -> Seq<u8> {
    Seq::new(
        20,
        |i: int|
            (16 * hex_val(spec_addr_digits(s)[2 * i]) + hex_val(
                spec_addr_digits(s)[2 * i + 1],
            )) as u8,
    )
}

/// Exec counterpart of `hex_val`, rejecting non-digits.
fn hex_digit_value(b: u8) -> (r: Option<u8>)
    ensures
        r is Some <==> is_hex_digit(b),
        r matches Some(v) ==> v == hex_val(b) && v < 16,
{
    if 48 <= b && b <= 57 {
        Some(b - 48)
    } else if 97 <= b && b <= 102 {
        Some(b - 87)
    } else if 65 <= b && b <= 70 {
        Some(b - 55)
    } else {
        None
    }
}

/// Parse a destination string into its 20 address bytes.
///
/// Succeeds exactly on well-formed address strings; the result is the
/// denoted byte string.
pub fn parse_address(s: &str) -> (r: Option<Vec<u8>>)
    ensures
        r is Some <==> spec_is_address(s.spec_bytes()),
        r matches Some(v) ==> v@ == spec_address_bytes(s.spec_bytes()) && v@.len() == 20,
{
    let bs: &[u8] = s.as_bytes();
    let n: usize = bs.len();
    let off: usize = if n >= 2 && bs[0] == 48 && bs[1] == 120 {
        2
    } else {
        0
    };
    proof {
        assert(spec_addr_digits(bs@) =~= bs@.skip(off as int));
    }
    if n - off != 40 {
        return None;
    }
    let mut out: Vec<u8> = Vec::new();
    let mut i: usize = 0;
    while i < 20
        invariant
            i <= 20,
            bs@ == s.spec_bytes(),
            n == bs@.len(),
            off == 0 || off == 2,
            n - off == 40,
            spec_addr_digits(bs@) =~= bs@.skip(off as int),
            out@.len() == i,
            forall|j: int| 0 <= j < 2 * i ==> is_hex_digit(#[trigger] spec_addr_digits(bs@)[j]),
            forall|j: int|
                0 <= j < i ==> out@[j] == (16 * hex_val(spec_addr_digits(bs@)[2 * j]) + hex_val(
                    spec_addr_digits(bs@)[2 * j + 1],
                )) as u8,
        decreases 20 - i,
    {
        proof {
            assert(spec_addr_digits(bs@)[2 * i as int] == bs@[off + 2 * i as int]);
            assert(spec_addr_digits(bs@)[2 * i as int + 1] == bs@[off + 2 * i as int + 1]);
        }
        let d0 = match hex_digit_value(bs[off + 2 * i]) {
            Some(v) => v,
            None => {
                assert(!is_hex_digit(spec_addr_digits(bs@)[2 * i as int]));
                return None;
            },
        };
        let d1 = match hex_digit_value(bs[off + 2 * i + 1]) {
            Some(v) => v,
            None => {
                assert(!is_hex_digit(spec_addr_digits(bs@)[2 * i as int + 1]));
                return None;
            },
        };
        out.push(16 * d0 + d1);
        i += 1;
    }
    proof {
        assert(out@ =~= spec_address_bytes(bs@));
    }
    Some(out)
}

} // verus!
