use token_transfer::address::parse_address;
use token_transfer::decimal::{on_chain_amount, DecimalAmount, MANTISSA_LIMIT};
use token_transfer::error::TransferError;
use token_transfer::gas::new_gas_price;

fn amount(negative: bool, mantissa: u128, scale: u32) -> DecimalAmount {
    DecimalAmount::new(negative, mantissa, scale).expect("amount within range")
}

#[test]
fn truncates_instead_of_rounding() {
    // 1.9999995 tokens at 6 decimal places: the half smallest unit is
    // discarded, not rounded up.
    let a = amount(false, 19999995, 7);
    assert_eq!(on_chain_amount(&a, 6), Ok(1999999));
}

#[test]
fn whole_amount_scales_up() {
    let a = amount(false, 2, 0);
    assert_eq!(on_chain_amount(&a, 6), Ok(2_000_000));
}

#[test]
fn trailing_zero_scale_scales_up() {
    // 2.00 written with scale 2.
    let a = amount(false, 200, 2);
    assert_eq!(on_chain_amount(&a, 6), Ok(2_000_000));
}

#[test]
fn scale_equal_to_precision_is_identity() {
    let a = amount(false, 123456, 6);
    assert_eq!(on_chain_amount(&a, 6), Ok(123456));
}

#[test]
fn finer_scale_truncates() {
    // 0.1234567 at 6 decimals: the seventh place is dropped.
    let a = amount(false, 1234567, 7);
    assert_eq!(on_chain_amount(&a, 6), Ok(123456));
}

#[test]
fn zero_amount_is_zero() {
    let a = amount(false, 0, 0);
    assert_eq!(on_chain_amount(&a, 6), Ok(0));
}

#[test]
fn negative_below_one_unit_truncates_to_zero() {
    // -0.0000004 at 6 decimals truncates toward zero.
    let a = amount(true, 4, 7);
    assert_eq!(on_chain_amount(&a, 6), Ok(0));
}

#[test]
fn negative_amount_is_rejected() {
    // -1.5 has no non-negative on-chain value.
    let a = amount(true, 15, 1);
    assert_eq!(on_chain_amount(&a, 6), Err(TransferError::AmountRange));
}

#[test]
fn unrepresentable_value_is_rejected() {
    // 10^28 whole tokens at 18 decimal places exceeds the representable
    // on-chain range.
    let a = amount(false, 10_000_000_000_000_000_000_000_000_000, 0);
    assert_eq!(on_chain_amount(&a, 18), Err(TransferError::AmountRange));
}

#[test]
fn mantissa_and_scale_limits_are_enforced() {
    assert!(DecimalAmount::new(false, MANTISSA_LIMIT, 0).is_none());
    assert!(DecimalAmount::new(false, MANTISSA_LIMIT - 1, 0).is_some());
    assert!(DecimalAmount::new(false, 0, 29).is_none());
    assert!(DecimalAmount::new(false, 0, 28).is_some());
}

#[test]
fn gas_markup_is_fifteen_percent_floored() {
    assert_eq!(new_gas_price(100), 115);
    assert_eq!(new_gas_price(1000), 1150);
    // floor(7 * 15 / 100) = 1, not 1.05 rounded anywhere.
    assert_eq!(new_gas_price(7), 8);
    assert_eq!(new_gas_price(1), 1);
    assert_eq!(new_gas_price(0), 0);
}

#[test]
fn gas_markup_matches_formula_on_large_prices() {
    let g = u128::MAX / 15;
    let expected = g + g.checked_mul(15).unwrap() / 100;
    assert_eq!(new_gas_price(g), expected);
}

#[test]
fn gas_markup_saturates_instead_of_panicking() {
    assert_eq!(new_gas_price(u128::MAX), u128::MAX);
    assert_eq!(new_gas_price(u128::MAX - 1), u128::MAX);
}

#[test]
fn parses_prefixed_address() {
    let v = parse_address("0xd8fce34b4280414866615b2cd9534716084b1647").expect("valid address");
    assert_eq!(
        v,
        vec![
            0xd8, 0xfc, 0xe3, 0x4b, 0x42, 0x80, 0x41, 0x48, 0x66, 0x61, 0x5b, 0x2c, 0xd9, 0x53,
            0x47, 0x16, 0x08, 0x4b, 0x16, 0x47,
        ]
    );
}

#[test]
fn parses_unprefixed_and_uppercase_addresses() {
    let bare = parse_address("d8fce34b4280414866615b2cd9534716084b1647").expect("valid address");
    let upper = parse_address("0xD8FCE34B4280414866615B2CD9534716084B1647").expect("valid address");
    assert_eq!(bare, upper);
    assert_eq!(bare[0], 0xd8);
    assert_eq!(bare[19], 0x47);
}

#[test]
fn rejects_malformed_addresses() {
    // Too short, too long, non-hex characters, empty, uppercase prefix.
    assert!(parse_address("0xd8fce34b4280414866615b2cd9534716084b16").is_none());
    assert!(parse_address("0xd8fce34b4280414866615b2cd9534716084b164700").is_none());
    assert!(parse_address("0xg8fce34b4280414866615b2cd9534716084b1647").is_none());
    assert!(parse_address("").is_none());
    assert!(parse_address("0x").is_none());
    assert!(parse_address("0Xd8fce34b4280414866615b2cd9534716084b1647").is_none());
}
