use fusion_drive::currency::Currency;
use fusion_drive::decimal::u32_to_decimal;

#[test]
fn new_currency_is_zero_sol() {
    let amount = Currency::new();
    assert_eq!(amount.identifier(), "SOL");
    assert_eq!(amount.integral(), 0);
    assert_eq!(amount.fractional(), 0);
    assert_eq!(amount.separator(), ".");
    assert_eq!(amount.to_string(), "SOL 0.0");
    assert_eq!(Currency::default(), Currency::new());
}

#[test]
fn currency_text_joins_its_parts() {
    let mut amount = Currency::new();
    amount
        .add_identifier("USDC")
        .add_integral(12)
        .add_separator(",")
        .add_fractional(5);
    assert_eq!(amount.to_string(), "USDC 12,5");
    assert_eq!(amount.identifier(), "USDC");
    assert_eq!(amount.integral(), 12);
    assert_eq!(amount.fractional(), 5);
    assert_eq!(amount.separator(), ",");
}

#[test]
fn decimal_matches_to_string() {
    for n in [0u32, 1, 9, 10, 11, 99, 100, 101, 4096, 65535, 1_000_000, 2_500_000, u32::MAX] {
        assert_eq!(u32_to_decimal(n), n.to_string());
    }
    assert_eq!(u32_to_decimal(u32::MAX), "4294967295");
}
