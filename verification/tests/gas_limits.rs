use admission_core::wrapper::{Amount, GasLimit, GAS_LIMIT_RESOLUTION};

/// Converting a gas limit to its raw value and back gives the original
/// limit, and the raw value of one multiplier step is the resolution.
#[test]
fn test_gas_limit_roundtrip() {
    let limit = GasLimit { multiplier: 1 };
    let raw = limit.raw_amount();
    assert_eq!(raw, GAS_LIMIT_RESOLUTION);
    let new_limit = GasLimit::from(raw);
    assert_eq!(new_limit, limit);
    let amount_limit = GasLimit::from(Amount::from(raw));
    assert_eq!(amount_limit, limit);
}

/// A raw amount that is not a multiple of the resolution rounds up to the
/// next multiple.
#[test]
fn test_deserialize_not_multiple_of_resolution() {
    let limit = GasLimit::from(GAS_LIMIT_RESOLUTION + 1);
    assert_eq!(limit, GasLimit { multiplier: 2 });
}

/// The refund is calculated exactly when usage lies within one resolution
/// step of the ceiling.
#[test]
fn test_gas_limit_refund() {
    let limit = GasLimit { multiplier: 1 };
    let refund = limit.refund_amount(GAS_LIMIT_RESOLUTION - 1);
    assert_eq!(refund, Amount::from(1u64));
}

/// No more than one resolution step is ever refunded.
#[test]
fn test_gas_limit_too_high_no_refund() {
    let limit = GasLimit { multiplier: 2 };
    let refund = limit.refund_amount(GAS_LIMIT_RESOLUTION - 1);
    assert_eq!(refund, Amount::from(GAS_LIMIT_RESOLUTION));
}

/// When gas usage was underestimated, no refund is issued.
#[test]
fn test_gas_limit_too_low_no_refund() {
    let limit = GasLimit { multiplier: 1 };
    let refund = limit.refund_amount(GAS_LIMIT_RESOLUTION + 1);
    assert_eq!(refund, Amount::from(0u64));
}

/// An exact multiple of the resolution is kept verbatim; the example from
/// one past a multiple lands on the next multiple.
#[test]
fn test_gas_limit_from_exact_and_rounded() {
    let exact = GasLimit::from(2 * GAS_LIMIT_RESOLUTION);
    assert_eq!(exact.multiplier, 2);
    assert_eq!(exact.raw_amount(), 2 * GAS_LIMIT_RESOLUTION);
    let rounded = GasLimit::from(1_000_001u64);
    assert_eq!(rounded.raw_amount(), 2_000_000u64);
    let zero = GasLimit::from(0u64);
    assert_eq!(zero.multiplier, 0);
}
