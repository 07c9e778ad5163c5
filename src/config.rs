use vstd::prelude::*;

verus! {

/// Optional inclusive market-cap range, in US cents.
#[derive(Clone, Copy, Debug, PartialEq, Eq)]
pub struct MarketCapBounds {
    pub min: Option<i64>,
    pub max: Option<i64>,
}

/// Settings of one process: credentials, endpoints, destination and filter range.
#[derive(Clone, Debug)]
pub struct AppConfig {
    pub moralis_api_key: String,
    pub moralis_base_url: String,
    pub telegram_bot_token: String,
    pub telegram_chat_id: String,
    pub telegram_api_base: String,
    pub market_cap_bounds: MarketCapBounds,
}

/// Why the settings could not be assembled.
#[derive(Clone, Debug, PartialEq, Eq)]
pub enum ConfigError {
    /// A required variable is unset or not valid Unicode.
    MissingEnv(String),
    /// A bound is set but is not a number.
    InvalidNumber { key: String },
}

/// What a lookup of one variable found.
#[derive(Clone, Debug)]
pub enum VarLookup {
    Present(String),
    NotPresent,
    NotUnicode,
}

/// What a lookup of a numeric bound found: its value in cents when it parsed.
#[derive(Clone, Copy, Debug, PartialEq, Eq)]
pub enum BoundLookup {
    Parsed(i64),
    Unparsable,
    NotPresent,
    NotUnicode,
}

/// The lookups of every variable the settings are made from.
#[derive(Clone, Debug)]
pub struct EnvVars {
    pub moralis_api_key: VarLookup,
    pub telegram_bot_token: VarLookup,
    pub telegram_chat_id: VarLookup,
    pub market_cap_min_usd: BoundLookup,
    pub market_cap_max_usd: BoundLookup,
    pub moralis_base_url: VarLookup,
    pub telegram_api_base: VarLookup,
}

pub const MORALIS_API_KEY: &'static str = "MORALIS_API_KEY";
pub const TELEGRAM_BOT_TOKEN: &'static str = "TELEGRAM_BOT_TOKEN";
pub const TELEGRAM_CHAT_ID: &'static str = "TELEGRAM_CHAT_ID";
pub const MARKET_CAP_MIN_USD: &'static str = "MARKET_CAP_MIN_USD";
pub const MARKET_CAP_MAX_USD: &'static str = "MARKET_CAP_MAX_USD";
pub const MORALIS_BASE_URL: &'static str = "MORALIS_BASE_URL";
pub const TELEGRAM_API_BASE: &'static str = "TELEGRAM_API_BASE";
pub const DEFAULT_MORALIS_BASE_URL: &'static str = "https://deep-index.moralis.io/api/v2.2";
pub const DEFAULT_TELEGRAM_API_BASE: &'static str = "https://api.telegram.org";

/// A required variable's text, or the name of the variable that is missing.
pub open spec fn required_spec(key: Seq<char>, lookup: VarLookup) -> Result<Seq<char>, Seq<char>> {
    match lookup {
        VarLookup::Present(v) => Ok(v@),
        _ => Err(key),
    }
}

/// The value of a required variable, or `MissingEnv` naming it.
pub fn required_var(key: &str, lookup: VarLookup) -> (r: Result<String, ConfigError>)
    ensures
        match required_spec(key@, lookup) {
            Ok(v) => (r matches Ok(s) && s@ == v),
            Err(k) => is_missing(r, k),
        },
{
    match lookup {
        VarLookup::Present(v) => Ok(v),
        _ => Err(ConfigError::MissingEnv(key.to_string())),
    }
}

/// An optional bound: unset gives none; a number gives it; text that is not
/// a number is `InvalidNumber`; a value that is not Unicode is `MissingEnv`.
pub fn parse_optional_bound(key: &str, lookup: BoundLookup) -> (r: Result<Option<i64>, ConfigError>)
    ensures
        lookup matches BoundLookup::Parsed(v) ==> r == Ok::<Option<i64>, ConfigError>(Some(v)),
        lookup matches BoundLookup::NotPresent ==> r == Ok::<Option<i64>, ConfigError>(None),
        lookup matches BoundLookup::Unparsable ==> is_invalid(r, key@),
        lookup matches BoundLookup::NotUnicode ==> is_missing(r, key@),
{
    match lookup {
        BoundLookup::Parsed(v) => Ok(Some(v)),
        BoundLookup::NotPresent => Ok(None),
        BoundLookup::Unparsable => Err(ConfigError::InvalidNumber { key: key.to_string() }),
        BoundLookup::NotUnicode => Err(ConfigError::MissingEnv(key.to_string())),
    }
}

/// The value of an optional setting, or `default` when it is unset or not Unicode.
pub fn var_or(lookup: VarLookup, default: &str) -> (r: String)
    ensures
        r@ == (match lookup {
            VarLookup::Present(v) => v@,
            _ => default@,
        }),
{
    match lookup {
        VarLookup::Present(v) => v,
        _ => default.to_string(),
    }
}

/// `r` is the error for a required variable `key` that is missing.
pub open spec fn is_missing<T>(r: Result<T, ConfigError>, key: Seq<char>) -> bool {
    r matches Err(ConfigError::MissingEnv(k)) && k@ == key
}

/// `r` is the error for a variable `key` that does not hold a number.
pub open spec fn is_invalid<T>(r: Result<T, ConfigError>, key: Seq<char>) -> bool {
    r matches Err(ConfigError::InvalidNumber { key: k }) && k@ == key
}

/// The lookup found a string with the text `v`.
pub open spec fn holds_text(lookup: VarLookup, v: Seq<char>) -> bool {
    lookup matches VarLookup::Present(s) && s@ == v
}

/// A bound lookup that does not stop the settings from being assembled.
pub open spec fn bound_ok(b: BoundLookup) -> bool {
    b is Parsed || b is NotPresent
}

/// The bound that a lookup gives, if any.
pub open spec fn bound_value(b: BoundLookup) -> Option<i64> {
    match b {
        BoundLookup::Parsed(v) => Some(v),
        _ => None,
    }
}

impl AppConfig {
    /// Assembles the settings from the variable lookups. The required
    /// variables are checked first, in the order API key, bot token, chat id,
    /// then the lower and the upper bound; the first that fails decides the
    /// error. Unset endpoints take their defaults.
    pub fn from_vars(vars: EnvVars) -> (r: Result<AppConfig, ConfigError>)
        ensures
            !(vars.moralis_api_key is Present) ==> is_missing(r, MORALIS_API_KEY@),
            vars.moralis_api_key is Present && !(vars.telegram_bot_token is Present)
                ==> is_missing(r, TELEGRAM_BOT_TOKEN@),
            vars.moralis_api_key is Present && vars.telegram_bot_token is Present && !(vars.telegram_chat_id is Present)
                ==> is_missing(r, TELEGRAM_CHAT_ID@),
            vars.moralis_api_key is Present && vars.telegram_bot_token is Present && vars.telegram_chat_id is Present
                && !bound_ok(vars.market_cap_min_usd) ==> r is Err,
            vars.moralis_api_key is Present && vars.telegram_bot_token is Present && vars.telegram_chat_id is Present
                && vars.market_cap_min_usd is Unparsable
                ==> is_invalid(r, MARKET_CAP_MIN_USD@),
            vars.moralis_api_key is Present && vars.telegram_bot_token is Present && vars.telegram_chat_id is Present
                && vars.market_cap_min_usd is NotUnicode
                ==> is_missing(r, MARKET_CAP_MIN_USD@),
            vars.moralis_api_key is Present && vars.telegram_bot_token is Present && vars.telegram_chat_id is Present
                && bound_ok(vars.market_cap_min_usd) && vars.market_cap_max_usd is Unparsable
                ==> is_invalid(r, MARKET_CAP_MAX_USD@),
            vars.moralis_api_key is Present && vars.telegram_bot_token is Present && vars.telegram_chat_id is Present
                && bound_ok(vars.market_cap_min_usd) && vars.market_cap_max_usd is NotUnicode
                ==> is_missing(r, MARKET_CAP_MAX_USD@),
            r is Ok <==> (vars.moralis_api_key is Present && vars.telegram_bot_token is Present
                && vars.telegram_chat_id is Present && bound_ok(vars.market_cap_min_usd)
                && bound_ok(vars.market_cap_max_usd)),
            r matches Ok(c) ==> {
                &&& holds_text(vars.moralis_api_key, c.moralis_api_key@)
                &&& holds_text(vars.telegram_bot_token, c.telegram_bot_token@)
                &&& holds_text(vars.telegram_chat_id, c.telegram_chat_id@)
                &&& c.market_cap_bounds.min == bound_value(vars.market_cap_min_usd)
                &&& c.market_cap_bounds.max == bound_value(vars.market_cap_max_usd)
                &&& c.moralis_base_url@ == (match vars.moralis_base_url {
                    VarLookup::Present(v) => v@,
                    _ => DEFAULT_MORALIS_BASE_URL@,
                })
                &&& c.telegram_api_base@ == (match vars.telegram_api_base {
                    VarLookup::Present(v) => v@,
                    _ => DEFAULT_TELEGRAM_API_BASE@,
                })
            },
    {
        let moralis_api_key = match required_var(MORALIS_API_KEY, vars.moralis_api_key) {
            Ok(v) => v,
            Err(e) => return Err(e),
        };
        let telegram_bot_token = match required_var(TELEGRAM_BOT_TOKEN, vars.telegram_bot_token) {
            Ok(v) => v,
            Err(e) => return Err(e),
        };
        let telegram_chat_id = match required_var(TELEGRAM_CHAT_ID, vars.telegram_chat_id) {
            Ok(v) => v,
            Err(e) => return Err(e),
        };
        let min = match parse_optional_bound(MARKET_CAP_MIN_USD, vars.market_cap_min_usd) {
            Ok(v) => v,
            Err(e) => return Err(e),
        };
        let max = match parse_optional_bound(MARKET_CAP_MAX_USD, vars.market_cap_max_usd) {
            Ok(v) => v,
            Err(e) => return Err(e),
        };
        Ok(AppConfig {
            moralis_base_url: var_or(vars.moralis_base_url, DEFAULT_MORALIS_BASE_URL),
            telegram_api_base: var_or(vars.telegram_api_base, DEFAULT_TELEGRAM_API_BASE),
            moralis_api_key,
            telegram_bot_token,
            telegram_chat_id,
            market_cap_bounds: MarketCapBounds { min, max },
        })
    }
}

} // verus!
