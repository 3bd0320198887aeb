//! Human-readable token amounts and their conversion to on-chain integer
//! units. An amount is an arbitrary-precision decimal, held as a sign, a
//! 96-bit mantissa and a decimal scale; the token's precision is a power of
//! ten fixed at construction. Conversion multiplies by the precision and
//! truncates: any fractional remainder of a smallest unit is discarded.

use vstd::prelude::*;
use vstd::arithmetic::power::{
    lemma_pow_adds,
    lemma_pow_increases,
    lemma_pow_positive,
    pow,
};
use vstd::arithmetic::div_mod::{lemma_div_denominator, lemma_div_multiples_vanish};
use crate::error::TransferError;

verus! {

/// Mantissas are kept below `2^96`, as the collaborating decimal type keeps
/// them.
pub const MANTISSA_LIMIT: u128 = 0x1000000000000000000000000;

/// Scales are at most 28 decimal places.
pub const SCALE_LIMIT: u32 = 28;

/// `10^e`.
pub open spec fn pow10(e: nat) -> int {
    pow(10, e)
}

/// A decimal token quantity: `mantissa / 10^scale`, negated when `negative`
/// is set.
#[derive(Clone, Copy, Debug)]
pub struct DecimalAmount {
    pub negative: bool,
    pub mantissa: u128,
    pub scale: u32,
}

/// The truncated on-chain magnitude of a non-negative decimal
/// `mantissa / 10^scale` at a precision of `decimals` places:
/// `floor((mantissa / 10^scale) * 10^decimals)`.
pub open spec fn spec_on_chain_units(mantissa: nat, scale: nat, decimals: nat) -> int {
    (mantissa * pow10(decimals)) / pow10(scale)
}

impl DecimalAmount {
    /// Well-formed: mantissa and scale within the representable range.
    pub open spec fn wf(self) -> bool {
        self.mantissa < MANTISSA_LIMIT && self.scale <= SCALE_LIMIT
    }

    /// Build an amount; rejects a mantissa or scale outside the
    /// representable range.
    pub fn new(negative: bool, mantissa: u128, scale: u32) -> (r: Option<DecimalAmount>)
        ensures
            r is Some <==> mantissa < MANTISSA_LIMIT && scale <= SCALE_LIMIT,
            r matches Some(a) ==> a == (DecimalAmount { negative, mantissa, scale }) && a.wf(),
    {
        if mantissa < MANTISSA_LIMIT && scale <= SCALE_LIMIT {
            Some(DecimalAmount { negative, mantissa, scale })
        } else {
            None
        }
    }
}

/// `10^e` when it is representable, `None` when it exceeds `u128::MAX`.
fn pow10_u128(e: u32) -> (r: Option<u128>)
    ensures
        r matches Some(p) ==> p == pow10(e as nat),
        r is None ==> pow10(e as nat) > u128::MAX,
{
    let mut acc: u128 = 1;
    let mut i: u32 = 0;
    proof {
        vstd::arithmetic::power::lemma_pow0(10);
    }
    while i < e
        invariant
            i <= e,
            acc == pow10(i as nat),
        decreases e - i,
    {
        acc = match acc.checked_mul(10) {
            Some(x) => x,
            None => {
                proof {
                    assert(pow10((i + 1) as nat) == 10 * pow10(i as nat)) by {
                        lemma_pow_adds(10, 1nat, i as nat);
                        vstd::arithmetic::power::lemma_pow1(10);
                    }
                    lemma_pow_increases(10, (i + 1) as nat, e as nat);
                }
                return None;
            },
        };
        proof {
            assert(pow10((i + 1) as nat) == 10 * pow10(i as nat)) by {
                lemma_pow_adds(10, 1nat, i as nat);
                vstd::arithmetic::power::lemma_pow1(10);
            }
        }
        i = i + 1;
    }
    Some(acc)
}

/// For exponents `d >= s`, scaling up then dividing collapses to one
/// multiplication: `(m * 10^d) / 10^s == m * 10^(d-s)`.
proof fn lemma_scale_up(m: nat, s: nat, d: nat)
    requires
        d >= s,
    ensures
        spec_on_chain_units(m, s, d) == m * pow10((d - s) as nat),
{
    lemma_pow_positive(10, s);
    lemma_pow_positive(10, (d - s) as nat);
    lemma_pow_adds(10, (d - s) as nat, s);
    assert(m * (pow10((d - s) as nat) * pow10(s)) == (m * pow10((d - s) as nat)) * pow10(s))
        by (nonlinear_arith);
    lemma_div_multiples_vanish(m * pow10((d - s) as nat), pow10(s));
}

/// For exponents `d < s`, scaling up then dividing collapses to one
/// division: `(m * 10^d) / 10^s == m / 10^(s-d)`.
proof fn lemma_scale_down(m: nat, s: nat, d: nat)
    requires
        d < s,
    ensures
        spec_on_chain_units(m, s, d) == m as int / pow10((s - d) as nat),
{
    lemma_pow_positive(10, d);
    lemma_pow_positive(10, (s - d) as nat);
    lemma_pow_adds(10, d, (s - d) as nat);
    lemma_div_denominator(m * pow10(d), pow10(d), pow10((s - d) as nat));
    lemma_div_multiples_vanish(m as int, pow10(d));
    assert(pow10(d) * m == m * pow10(d)) by (nonlinear_arith);
}

/// Convert a decimal amount to on-chain integer units at a precision of
/// `decimals` decimal places, truncating any fractional smallest unit.
///
/// For a non-negative amount the result is exactly
/// `floor((mantissa / 10^scale) * 10^decimals)` whenever that value is
/// representable, and an amount-range error otherwise. A negative amount is
/// accepted only when it truncates to zero; any strictly negative on-chain
/// value is an amount-range error.
pub fn on_chain_amount(a: &DecimalAmount, decimals: u32) -> (r: Result<u128, TransferError>)
    ensures
        !a.negative ==> ((r is Ok) <==> spec_on_chain_units(
            a.mantissa as nat,
            a.scale as nat,
            decimals as nat,
        ) <= u128::MAX),
        !a.negative ==> (r matches Ok(v) ==> v == spec_on_chain_units(
            a.mantissa as nat,
            a.scale as nat,
            decimals as nat,
        )),
        a.negative ==> ((r is Ok) <==> spec_on_chain_units(
            a.mantissa as nat,
            a.scale as nat,
            decimals as nat,
        ) == 0),
        a.negative && r is Ok ==> (r matches Ok(v) && v == 0),
        r is Err ==> (r matches Err(e) && e == TransferError::AmountRange),
{
    let m = a.mantissa;
    let s = a.scale;
    let d = decimals;
    if m == 0 {
        proof {
            lemma_pow_positive(10, s as nat);
            assert(spec_on_chain_units(0, s as nat, d as nat) == 0);
        }
        return Ok(0);
    }
    let magnitude: Option<u128> = if d >= s {
        proof {
            lemma_scale_up(m as nat, s as nat, d as nat);
        }
        match pow10_u128(d - s) {
            Some(p) => {
                proof {
                    assert(m * p > u128::MAX ==> m as int * p > u128::MAX);
                }
                m.checked_mul(p)
            },
            None => {
                proof {
                    assert(m as int * pow10((d - s) as nat) >= pow10((d - s) as nat))
                        by (nonlinear_arith)
                        requires
                            m >= 1,
                            pow10((d - s) as nat) > 0,
                    ;
                    lemma_pow_positive(10, (d - s) as nat);
                }
                None
            },
        }
    } else {
        proof {
            lemma_scale_down(m as nat, s as nat, d as nat);
        }
        match pow10_u128(s - d) {
            Some(p) => {
                proof {
                    lemma_pow_positive(10, (s - d) as nat);
                }
                Some(m / p)
            },
            None => {
                // The divisor exceeds every representable mantissa, so the
                // quotient is zero.
                proof {
                    vstd::arithmetic::div_mod::lemma_basic_div(m as int, pow10((s - d) as nat));
                }
                Some(0)
            },
        }
    };
    match magnitude {
        Some(v) => {
            if a.negative {
                if v == 0 {
                    Ok(0)
                } else {
                    Err(TransferError::AmountRange)
                }
            } else {
                Ok(v)
            }
        },
        None => Err(TransferError::AmountRange),
    }
}

} // verus!
