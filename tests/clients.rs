use cap_alert::http::{is_success, trim_base_url};
use cap_alert::moralis::{MoralisClient, MoralisError, TokenMetrics};
use cap_alert::telegram::{TelegramClient, TelegramError};

#[test]
fn success_class_is_two_hundreds() {
    assert!(!is_success(199));
    assert!(is_success(200));
    assert!(is_success(299));
    assert!(!is_success(300));
    assert!(!is_success(404));
}

#[test]
fn trailing_slashes_are_removed() {
    assert_eq!(trim_base_url("https://a.example///"), "https://a.example");
    assert_eq!(trim_base_url("https://a.example/v2"), "https://a.example/v2");
    assert_eq!(trim_base_url("///"), "");
    assert_eq!(trim_base_url(""), "");
}

#[test]
fn price_url_names_mint_and_network() {
    let client = MoralisClient::new("k".to_string(), "https://deep-index.moralis.io/api/v2.2/".to_string());
    assert_eq!(
        client.price_url("So11111111111111111111111111111111111111112"),
        "https://deep-index.moralis.io/api/v2.2/tokens/So11111111111111111111111111111111111111112/price?chain=solana"
    );
}

#[test]
fn lookup_outcomes() {
    let metrics = TokenMetrics { price_usd: Some(1_000_000), market_cap_usd: None };
    assert!(matches!(MoralisClient::metrics_from_response(200, Ok(metrics)), Ok(m) if m == metrics));
    assert!(matches!(
        MoralisClient::metrics_from_response(401, Ok(metrics)),
        Err(MoralisError::HttpStatus(401))
    ));
    match MoralisClient::metrics_from_response(200, Err("expected value".to_string())) {
        Err(MoralisError::Transport(detail)) => assert_eq!(detail, "expected value"),
        _ => panic!("expected a transport error"),
    }
}

#[test]
fn send_url_and_message() {
    let client = TelegramClient::new("123:abc".to_string(), "https://api.telegram.org/".to_string());
    assert_eq!(client.send_url(), "https://api.telegram.org/bot123:abc/sendMessage");
    let m = TelegramClient::message("42", "hello");
    assert_eq!(m.chat_id, "42");
    assert_eq!(m.text, "hello");
    assert!(m.disable_web_page_preview);
}

#[test]
fn delivery_outcomes() {
    assert!(matches!(TelegramClient::delivery_from_response(200), Ok(())));
    assert!(matches!(TelegramClient::delivery_from_response(500), Err(TelegramError::HttpStatus(500))));
}
