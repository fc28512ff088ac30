use reflink::errors::SettlementError;
use reflink::fees::compute_split;

#[test]
fn split_of_thousand_at_250_and_500_bps() {
    let receipt = compute_split(1000, 250, 500).unwrap();
    assert_eq!(receipt.platform_fee, 25);
    assert_eq!(receipt.referrer_fee, 50);
    assert_eq!(receipt.merchant_amount, 925);
}

#[test]
fn split_conserves_value_on_samples() {
    let samples: Vec<(u64, u16, u16)> = vec![
        (1, 0, 0),
        (1, 9999, 1),
        (999, 3333, 6667),
        (1000, 250, 500),
        (33, 5000, 5000),
        (7, 1, 1),
        (123456789, 10000, 0),
        (987654321, 1, 9999),
    ];
    for (amount, platform_rate, referrer_rate) in samples {
        let receipt = compute_split(amount, platform_rate, referrer_rate).unwrap();
        assert_eq!(
            receipt.platform_fee + receipt.referrer_fee + receipt.merchant_amount,
            amount
        );
    }
}

#[test]
fn split_rounds_each_fee_down() {
    // 33 * 5000 / 10000 = 16.5 rounds to 16 on both legs; the merchant
    // collects both half units.
    let receipt = compute_split(33, 5000, 5000).unwrap();
    assert_eq!(receipt.platform_fee, 16);
    assert_eq!(receipt.referrer_fee, 16);
    assert_eq!(receipt.merchant_amount, 1);
}

#[test]
fn split_rejects_zero_amount() {
    assert_eq!(
        compute_split(0, 250, 500),
        Err(SettlementError::InvalidAmount)
    );
}

#[test]
fn split_fails_when_platform_product_overflows() {
    assert_eq!(
        compute_split(u64::MAX, 2, 0),
        Err(SettlementError::ArithmeticOverflow)
    );
}

#[test]
fn split_fails_when_referrer_product_overflows() {
    assert_eq!(
        compute_split(u64::MAX / 2, 1, 3),
        Err(SettlementError::ArithmeticOverflow)
    );
}

#[test]
fn split_fails_when_fees_exceed_amount() {
    // Both rates at 100%: the two fees together exceed the amount.
    assert_eq!(
        compute_split(10, 10000, 10000),
        Err(SettlementError::ArithmeticOverflow)
    );
}

#[test]
fn split_with_full_platform_rate_leaves_merchant_nothing() {
    let receipt = compute_split(500, 10000, 0).unwrap();
    assert_eq!(receipt.platform_fee, 500);
    assert_eq!(receipt.referrer_fee, 0);
    assert_eq!(receipt.merchant_amount, 0);
}
