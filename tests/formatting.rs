use cap_alert::analyzer::alert_message;
use cap_alert::decimal::fixed;
use cap_alert::moralis::TokenMetrics;

#[test]
fn fixed_point_with_two_and_six_decimals() {
    assert_eq!(fixed(25_000_000, 2), "250000.00");
    assert_eq!(fixed(4_200, 6), "0.004200");
    assert_eq!(fixed(0, 2), "0.00");
    assert_eq!(fixed(5, 2), "0.05");
    assert_eq!(fixed(-150, 2), "-1.50");
    assert_eq!(fixed(123, 1), "12.3");
}

#[test]
fn fixed_point_extremes() {
    assert_eq!(fixed(i64::MAX, 2), "92233720368547758.07");
    assert_eq!(fixed(i64::MIN, 2), "-92233720368547758.08");
}

#[test]
fn alert_with_price() {
    let metrics = TokenMetrics { price_usd: Some(4_200), market_cap_usd: Some(25_000_000) };
    let text = alert_message("MintAbc", "SigXyz", &metrics, 25_000_000);
    assert_eq!(
        text,
        "Solana token alert\nMint: MintAbc\nSignature: SigXyz\nMarket cap (USD): 250000.00\nPrice (USD): 0.004200"
    );
}

#[test]
fn alert_without_price() {
    let metrics = TokenMetrics { price_usd: None, market_cap_usd: Some(123_456) };
    let text = alert_message("M", "S", &metrics, 123_456);
    assert_eq!(text, "Solana token alert\nMint: M\nSignature: S\nMarket cap (USD): 1234.56\nPrice (USD): n/a");
}
