use cap_alert::analyzer::{Action, Analyzer, AnalyzerError, FilterOutcome, Note, OUT_OF_CAP_RANGE};
use cap_alert::config::{AppConfig, MarketCapBounds};
use cap_alert::helius::{HeliusEvents, HeliusWebhook, TokenTransfer};
use cap_alert::moralis::{MoralisError, TokenMetrics};
use cap_alert::telegram::TelegramError;

fn analyzer(min: Option<i64>, max: Option<i64>) -> Analyzer {
    Analyzer::new(&AppConfig {
        moralis_api_key: "key".to_string(),
        moralis_base_url: "https://market.example/api/".to_string(),
        telegram_bot_token: "token".to_string(),
        telegram_chat_id: "chat-1".to_string(),
        telegram_api_base: "https://chat.example//".to_string(),
        market_cap_bounds: MarketCapBounds { min, max },
    })
}

fn transfer(mint: &str) -> TokenTransfer {
    TokenTransfer { mint: mint.to_string(), from_user_account: None, to_user_account: None }
}

fn event(signature: &str, transfers: Vec<TokenTransfer>) -> HeliusWebhook {
    HeliusWebhook { signature: signature.to_string(), events: HeliusEvents { token_transfers: transfers } }
}

#[test]
fn new_trims_endpoints_and_keeps_settings() {
    let a = analyzer(Some(1), Some(2));
    assert_eq!(a.moralis.base_url, "https://market.example/api");
    assert_eq!(a.telegram.base_url, "https://chat.example");
    assert_eq!(a.chat_id, "chat-1");
    assert_eq!(a.cap_filter.bounds, MarketCapBounds { min: Some(1), max: Some(2) });
}

#[test]
fn primary_mint_is_first_transfer() {
    let e = event("sig", vec![transfer("first"), transfer("second")]);
    assert_eq!(e.primary_mint(), Some("first"));
    assert_eq!(event("sig", vec![]).primary_mint(), None);
}

#[test]
fn event_without_transfer_is_skipped() {
    let a = analyzer(None, None);
    let step = a.begin(&event("sig", vec![]));
    assert!(matches!(step.action, Action::Finish { outcome: Ok(()) }));
    assert!(matches!(step.note, Note::SkipMissingMint));
}

#[test]
fn event_with_transfer_fetches_its_first_mint() {
    let a = analyzer(None, None);
    let step = a.begin(&event("sig", vec![transfer("MintA"), transfer("MintB")]));
    match step.action {
        Action::FetchMetrics { mint } => assert_eq!(mint, "MintA"),
        _ => panic!("expected a lookup"),
    }
    assert!(matches!(step.note, Note::Intake));
}

#[test]
fn missing_market_cap_is_skipped() {
    let a = analyzer(None, None);
    let metrics = TokenMetrics { price_usd: Some(1), market_cap_usd: None };
    let step = a.on_metrics("sig", "MintA", Ok(metrics));
    assert!(matches!(step.action, Action::Finish { outcome: Ok(()) }));
    assert!(matches!(step.note, Note::SkipMissingMarketCap));
}

#[test]
fn enrichment_failure_is_the_error() {
    let a = analyzer(None, None);
    let step = a.on_metrics("sig", "MintA", Err(MoralisError::HttpStatus(503)));
    assert!(matches!(
        step.action,
        Action::Finish { outcome: Err(AnalyzerError::Moralis(MoralisError::HttpStatus(503))) }
    ));
    assert!(matches!(step.note, Note::ExternalApiError));
}

#[test]
fn rejected_cap_ends_without_delivery() {
    let a = analyzer(Some(100_000), Some(500_000_000));
    let metrics = TokenMetrics { price_usd: None, market_cap_usd: Some(99_999) };
    let step = a.on_metrics("sig", "MintA", Ok(metrics));
    assert!(matches!(step.action, Action::Finish { outcome: Ok(()) }));
    match step.note {
        Note::FilterDecision { market_cap, outcome } => {
            assert_eq!(market_cap, 99_999);
            assert_eq!(outcome, FilterOutcome::Fail { reason: OUT_OF_CAP_RANGE });
        }
        _ => panic!("expected a filter decision"),
    }
}

#[test]
fn passing_cap_sends_one_alert() {
    // bounds 1000 .. 5 000 000 dollars; price 0.0042, market cap 250 000
    let a = analyzer(Some(100_000), Some(500_000_000));
    let metrics = TokenMetrics { price_usd: Some(4_200), market_cap_usd: Some(25_000_000) };
    let step = a.on_metrics("SigXyz", "MintAbc", Ok(metrics));
    match step.action {
        Action::SendMessage { chat_id, text } => {
            assert_eq!(chat_id, "chat-1");
            assert!(text.contains("MintAbc"));
            assert!(text.contains("SigXyz"));
            assert!(text.contains("250000.00"));
            assert!(text.contains("0.004200"));
        }
        _ => panic!("expected a delivery"),
    }
    match step.note {
        Note::FilterDecision { market_cap, outcome } => {
            assert_eq!(market_cap, 25_000_000);
            assert_eq!(outcome, FilterOutcome::Pass);
        }
        _ => panic!("expected a filter decision"),
    }
    let done = a.on_delivery(Ok(()));
    assert!(matches!(done.action, Action::Finish { outcome: Ok(()) }));
    assert!(matches!(done.note, Note::AlertDelivered));
}

#[test]
fn delivery_failure_is_the_error() {
    let a = analyzer(None, None);
    let done = a.on_delivery(Err(TelegramError::Transport("connection reset".to_string())));
    match done.action {
        Action::Finish { outcome: Err(AnalyzerError::Telegram(TelegramError::Transport(detail))) } => {
            assert_eq!(detail, "connection reset")
        }
        _ => panic!("expected a delivery error"),
    }
    assert!(matches!(done.note, Note::AlertDeliveryFailed));
}
