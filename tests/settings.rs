use cap_alert::config::{AppConfig, BoundLookup, ConfigError, EnvVars, VarLookup};

fn present(v: &str) -> VarLookup {
    VarLookup::Present(v.to_string())
}

fn complete() -> EnvVars {
    EnvVars {
        moralis_api_key: present("mk"),
        telegram_bot_token: present("tt"),
        telegram_chat_id: present("chat"),
        market_cap_min_usd: BoundLookup::Parsed(100_000),
        market_cap_max_usd: BoundLookup::NotPresent,
        moralis_base_url: VarLookup::NotPresent,
        telegram_api_base: present("https://proxy.example"),
    }
}

#[test]
fn complete_settings() {
    let c = AppConfig::from_vars(complete()).unwrap();
    assert_eq!(c.moralis_api_key, "mk");
    assert_eq!(c.telegram_bot_token, "tt");
    assert_eq!(c.telegram_chat_id, "chat");
    assert_eq!(c.market_cap_bounds.min, Some(100_000));
    assert_eq!(c.market_cap_bounds.max, None);
    assert_eq!(c.moralis_base_url, "https://deep-index.moralis.io/api/v2.2");
    assert_eq!(c.telegram_api_base, "https://proxy.example");
}

#[test]
fn missing_required_variable() {
    let mut vars = complete();
    vars.telegram_bot_token = VarLookup::NotPresent;
    vars.telegram_chat_id = VarLookup::NotUnicode;
    assert_eq!(
        AppConfig::from_vars(vars).unwrap_err(),
        ConfigError::MissingEnv("TELEGRAM_BOT_TOKEN".to_string())
    );
}

#[test]
fn unparsable_bound() {
    let mut vars = complete();
    vars.market_cap_max_usd = BoundLookup::Unparsable;
    assert_eq!(
        AppConfig::from_vars(vars).unwrap_err(),
        ConfigError::InvalidNumber { key: "MARKET_CAP_MAX_USD".to_string() }
    );
}

#[test]
fn non_unicode_bound() {
    let mut vars = complete();
    vars.market_cap_min_usd = BoundLookup::NotUnicode;
    assert_eq!(
        AppConfig::from_vars(vars).unwrap_err(),
        ConfigError::MissingEnv("MARKET_CAP_MIN_USD".to_string())
    );
}
