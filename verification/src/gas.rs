//! Gas-price markup policy: offer the network-suggested price plus a flat
//! 15% (integer floor division), so that the transaction is attractive to
//! include. The computation saturates instead of overflowing.

use vstd::prelude::*;

verus! {

/// The marked-up price as a mathematical integer: `g + floor(g * 15 / 100)`.
pub open spec fn spec_new_gas_price(g: int) -> int {
    g + (g * 15) / 100
}

/// What the saturating computation yields for every fetched price: the
/// exact marked-up price while `g * 15` is representable, and the
/// saturated markup beyond that.
pub open spec fn spec_marked_up_gas_price(g: u128) -> u128 {
    if g * 15 <= u128::MAX {
        (g + (g * 15) / 100) as u128
    } else if g + u128::MAX / 100 <= u128::MAX {
        (g + u128::MAX / 100) as u128
    } else {
        u128::MAX
    }
}

/// The markup policy never rounds up and never panics: whenever `g * 15`
/// is representable, the offered price is exactly `g + floor(g * 15 / 100)`,
/// and it is itself representable.
pub proof fn lemma_gas_markup_exact(g: u128)
    requires
        g * 15 <= u128::MAX,
    ensures
        spec_marked_up_gas_price(g) == spec_new_gas_price(g as int),
        spec_new_gas_price(g as int) <= u128::MAX,
{
    assert(g + (g * 15) / 100 <= u128::MAX) by (nonlinear_arith)
        requires
            g * 15 <= u128::MAX,
    ;
}

/// Apply the 15% markup to a fetched gas price, saturating at `u128::MAX`
/// instead of panicking on enormous prices.
pub fn new_gas_price(g: u128) -> (r: u128)
    ensures
        r == spec_marked_up_gas_price(g),
{
    let markup: u128 = match g.checked_mul(15) {
        Some(x) => x / 100,
        None => u128::MAX / 100,
    };
    proof {
        if g * 15 <= u128::MAX {
            lemma_gas_markup_exact(g);
        }
    }
    g.saturating_add(markup)
}

} // verus!
