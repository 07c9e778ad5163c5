use vstd::prelude::*;
use crate::config::{AppConfig, MarketCapBounds};
use crate::decimal::{fixed_text, push_fixed};
use crate::helius::HeliusWebhook;
use crate::moralis::{MoralisClient, MoralisError, TokenMetrics};
use crate::telegram::{TelegramClient, TelegramError};
use crate::http::without_trailing_slashes;

verus! {

/// Result of checking a market capitalization against the configured range.
#[derive(Debug, PartialEq)]
pub enum FilterOutcome {
    Pass,
    Fail { reason: &'static str },
}

/// Reason code carried by every rejection of the admission filter.
pub const OUT_OF_CAP_RANGE: &'static str = "out_of_cap_range";

/// The admission filter: an inclusive range on the market capitalization, open
/// on each side whose bound is not configured.
#[derive(Clone, Copy, Debug)]
pub struct MarketCapFilter {
    pub bounds: MarketCapBounds,
}

impl MarketCapFilter {
    pub fn new(bounds: MarketCapBounds) -> (r: MarketCapFilter)
        ensures
            r.bounds == bounds,
    {
        MarketCapFilter { bounds }
    }

    /// `market_cap` is at or above the lower bound and at or below the upper
    /// bound, for each bound that is configured.
    pub open spec fn admits(&self, market_cap: int) -> bool {
        &&& (self.bounds.min matches Some(lo) ==> lo <= market_cap)
        &&& (self.bounds.max matches Some(hi) ==> market_cap <= hi)
    }

    /// The filter's verdict on `market_cap`.
    pub open spec fn outcome(&self, market_cap: int) -> FilterOutcome {
        if self.admits(market_cap) {
            FilterOutcome::Pass
        } else {
            FilterOutcome::Fail { reason: OUT_OF_CAP_RANGE }
        }
    }

    /// Checks `market_cap` (in cents) against the range.
    pub fn evaluate(&self, market_cap: i64) -> (r: FilterOutcome)
        ensures
            r == self.outcome(market_cap as int),
    {
        if let Some(min) = self.bounds.min {
            if market_cap < min {
                return FilterOutcome::Fail { reason: OUT_OF_CAP_RANGE };
            }
        }
        if let Some(max) = self.bounds.max {
            if market_cap > max {
                return FilterOutcome::Fail { reason: OUT_OF_CAP_RANGE };
            }
        }
        FilterOutcome::Pass
    }
}

/// With both bounds configured as `[lo, hi]`, a market cap passes exactly when
/// it lies between them, both ends included.
pub proof fn lemma_closed_range(lo: i64, hi: i64, market_cap: i64)
    requires
        lo <= hi,
    ensures
        ({
            let f = MarketCapFilter { bounds: MarketCapBounds { min: Some(lo), max: Some(hi) } };
            f.outcome(market_cap as int) is Pass <==> lo <= market_cap <= hi
        }),
{
}

/// With only an upper bound, a market cap passes exactly when it is at most
/// that bound, whatever its sign; with only a lower bound, exactly when it is
/// at least that bound.
pub proof fn lemma_open_ranges(bound: i64, market_cap: i64)
    ensures
        ({
            let below = MarketCapFilter { bounds: MarketCapBounds { min: None, max: Some(bound) } };
            below.outcome(market_cap as int) is Pass <==> market_cap <= bound
        }),
        ({
            let above = MarketCapFilter { bounds: MarketCapBounds { min: Some(bound), max: None } };
            above.outcome(market_cap as int) is Pass <==> bound <= market_cap
        }),
{
}

/// Without any bound every market cap passes.
pub proof fn lemma_unbounded(market_cap: i64)
    ensures
        (MarketCapFilter { bounds: MarketCapBounds { min: None, max: None } }).outcome(market_cap as int)
            == FilterOutcome::Pass,
{
}

/// Both bounds of `[lo, hi]` pass, while any value below `lo` or above `hi`
/// fails with the out-of-range reason.
pub proof fn lemma_bounds_inclusive(lo: i64, hi: i64, below: i64, above: i64)
    requires
        lo <= hi,
        below < lo,
        hi < above,
    ensures
        ({
            let f = MarketCapFilter { bounds: MarketCapBounds { min: Some(lo), max: Some(hi) } };
            &&& f.outcome(lo as int) == FilterOutcome::Pass
            &&& f.outcome(hi as int) == FilterOutcome::Pass
            &&& f.outcome(below as int) == (FilterOutcome::Fail { reason: OUT_OF_CAP_RANGE })
            &&& f.outcome(above as int) == (FilterOutcome::Fail { reason: OUT_OF_CAP_RANGE })
        }),
{
}

/// A failure that ends the processing of one event.
#[derive(Clone, Debug)]
pub enum AnalyzerError {
    /// The market-data lookup failed.
    Moralis(MoralisError),
    /// The alert could not be delivered.
    Telegram(TelegramError),
}

/// The market cap with two decimals, or the price with six, as written in an alert.
pub open spec fn price_text(price_usd: Option<i64>) -> Seq<char> {
    match price_usd {
        Some(p) => fixed_text(p as int, 6),
        None => "n/a"@,
    }
}

/// The alert for `mint` in the transaction `signature`, with its market cap in
/// cents and its price in millionths of a dollar.
pub open spec fn alert_text(mint: Seq<char>, signature: Seq<char>, market_cap: int, price_usd: Option<i64>) -> Seq<char> {
    "Solana token alert\nMint: "@ + mint + "\nSignature: "@ + signature + "\nMarket cap (USD): "@
        + fixed_text(market_cap, 2) + "\nPrice (USD): "@ + price_text(price_usd)
}

/// Builds the alert text for an asset that passed the filter.
pub fn alert_message(mint: &str, signature: &str, metrics: &TokenMetrics, market_cap: i64) -> (r: String)
    ensures
        r@ == alert_text(mint@, signature@, market_cap as int, metrics.price_usd),
{
    let mut r = String::new();
    r.append("Solana token alert\nMint: ");
    r.append(mint);
    r.append("\nSignature: ");
    r.append(signature);
    r.append("\nMarket cap (USD): ");
    push_fixed(&mut r, market_cap, 2);
    r.append("\nPrice (USD): ");
    match metrics.price_usd {
        Some(p) => push_fixed(&mut r, p, 6),
        None => r.append("n/a"),
    }
    assert(r@ =~= alert_text(mint@, signature@, market_cap as int, metrics.price_usd));
    r
}

/// An outside call requested by the pipeline, or the end of the processing of
/// one event, over plain values.
pub enum Call {
    /// Look up the market data of an asset.
    Fetch(Seq<char>),
    /// Post a text to a destination.
    Deliver(Seq<char>, Seq<char>),
    /// Stop with this outcome.
    Done(Result<(), AnalyzerError>),
}

/// What the caller does next for the event under processing.
#[derive(Debug)]
pub enum Action {
    /// Look up the market data of `mint` and hand the answer to `on_metrics`.
    FetchMetrics { mint: String },
    /// Post `text` to `chat_id` and hand the answer to `on_delivery`.
    SendMessage { chat_id: String, text: String },
    /// Processing is over.
    Finish { outcome: Result<(), AnalyzerError> },
}

impl View for Action {
    type V = Call;

    open spec fn view(&self) -> Call {
        match self {
            Action::FetchMetrics { mint } => Call::Fetch(mint@),
            Action::SendMessage { chat_id, text } => Call::Deliver(chat_id@, text@),
            Action::Finish { outcome } => Call::Done(*outcome),
        }
    }
}

/// What the operator log records about a step: why an event did or did not
/// produce an alert.
#[derive(Debug)]
pub enum Note {
    /// The event names an asset and its processing starts.
    Intake,
    /// The event carries no transfer; nothing is done.
    SkipMissingMint,
    /// The market-data lookup failed.
    ExternalApiError,
    /// The market data has no market cap; nothing is sent.
    SkipMissingMarketCap,
    /// The filter's decision on the market cap.
    FilterDecision { market_cap: i64, outcome: FilterOutcome },
    /// The alert could not be delivered.
    AlertDeliveryFailed,
    /// The alert was delivered.
    AlertDelivered,
}

/// One decision of the pipeline: what to do next and what to log.
#[derive(Debug)]
pub struct Step {
    pub action: Action,
    pub note: Note,
}

/// The pipeline coordinator: turns one webhook event into at most one
/// market-data lookup and at most one alert.
#[derive(Clone, Debug)]
pub struct Analyzer {
    pub moralis: MoralisClient,
    pub telegram: TelegramClient,
    pub chat_id: String,
    pub cap_filter: MarketCapFilter,
}

impl Analyzer {
    pub fn new(config: &AppConfig) -> (r: Analyzer)
        ensures
            r.moralis.api_key == config.moralis_api_key,
            r.moralis.base_url@ == without_trailing_slashes(config.moralis_base_url@),
            r.telegram.bot_token == config.telegram_bot_token,
            r.telegram.base_url@ == without_trailing_slashes(config.telegram_api_base@),
            r.chat_id == config.telegram_chat_id,
            r.cap_filter.bounds == config.market_cap_bounds,
    {
        Analyzer {
            moralis: MoralisClient::new(config.moralis_api_key.clone(), config.moralis_base_url.clone()),
            telegram: TelegramClient::new(config.telegram_bot_token.clone(), config.telegram_api_base.clone()),
            chat_id: config.telegram_chat_id.clone(),
            cap_filter: MarketCapFilter::new(config.market_cap_bounds),
        }
    }

    /// First decision on `event`: look up its first transfer's asset, or stop
    /// with success when it has none.
    pub open spec fn begin_call(event: HeliusWebhook) -> Call {
        match event.primary_mint_spec() {
            Some(mint) => Call::Fetch(mint),
            None => Call::Done(Ok(())),
        }
    }

    pub fn begin(&self, event: &HeliusWebhook) -> (r: Step)
        ensures
            r.action@ == Self::begin_call(*event),
            r.note == (if event.primary_mint_spec() is Some { Note::Intake } else { Note::SkipMissingMint }),
    {
        match event.primary_mint() {
            Some(mint) => Step { action: Action::FetchMetrics { mint: mint.to_string() }, note: Note::Intake },
            None => Step { action: Action::Finish { outcome: Ok(()) }, note: Note::SkipMissingMint },
        }
    }

    /// Decision once the lookup for `mint` answered `fetched`: a failure stops
    /// with an enrichment error; an unknown market cap or a rejection by the
    /// filter stops with success; a market cap that passes is alerted on.
    pub open spec fn metrics_call(
        &self,
        signature: Seq<char>,
        mint: Seq<char>,
        fetched: Result<TokenMetrics, MoralisError>,
    ) -> Call {
        match fetched {
            Err(e) => Call::Done(Err(AnalyzerError::Moralis(e))),
            Ok(m) => match m.market_cap_usd {
                None => Call::Done(Ok(())),
                Some(cap) => if self.cap_filter.admits(cap as int) {
                    Call::Deliver(self.chat_id@, alert_text(mint, signature, cap as int, m.price_usd))
                } else {
                    Call::Done(Ok(()))
                },
            },
        }
    }

    /// What is logged once the lookup answered `fetched`.
    pub open spec fn metrics_note(&self, fetched: Result<TokenMetrics, MoralisError>) -> Note {
        match fetched {
            Err(_) => Note::ExternalApiError,
            Ok(m) => match m.market_cap_usd {
                None => Note::SkipMissingMarketCap,
                Some(cap) => Note::FilterDecision { market_cap: cap, outcome: self.cap_filter.outcome(cap as int) },
            },
        }
    }

    pub fn on_metrics(&self, signature: &str, mint: &str, fetched: Result<TokenMetrics, MoralisError>) -> (r: Step)
        ensures
            r.action@ == self.metrics_call(signature@, mint@, fetched),
            r.note == self.metrics_note(fetched),
    {
        let metrics = match fetched {
            Ok(m) => m,
            Err(e) => {
                return Step {
                    action: Action::Finish { outcome: Err(AnalyzerError::Moralis(e)) },
                    note: Note::ExternalApiError,
                };
            },
        };
        let market_cap = match metrics.market_cap_usd {
            Some(cap) => cap,
            None => {
                return Step { action: Action::Finish { outcome: Ok(()) }, note: Note::SkipMissingMarketCap };
            },
        };
        match self.cap_filter.evaluate(market_cap) {
            FilterOutcome::Pass => {
                let text = alert_message(mint, signature, &metrics, market_cap);
                Step {
                    action: Action::SendMessage { chat_id: self.chat_id.clone(), text },
                    note: Note::FilterDecision { market_cap, outcome: FilterOutcome::Pass },
                }
            },
            FilterOutcome::Fail { reason } => Step {
                action: Action::Finish { outcome: Ok(()) },
                note: Note::FilterDecision { market_cap, outcome: FilterOutcome::Fail { reason } },
            },
        }
    }

    /// Decision once the delivery answered `delivered`: its failure is the
    /// event's error, its success the event's success.
    pub open spec fn delivery_call(delivered: Result<(), TelegramError>) -> Call {
        match delivered {
            Ok(()) => Call::Done(Ok(())),
            Err(e) => Call::Done(Err(AnalyzerError::Telegram(e))),
        }
    }

    pub fn on_delivery(&self, delivered: Result<(), TelegramError>) -> (r: Step)
        ensures
            r.action@ == Self::delivery_call(delivered),
            r.note == (if delivered is Ok { Note::AlertDelivered } else { Note::AlertDeliveryFailed }),
    {
        match delivered {
            Ok(()) => Step { action: Action::Finish { outcome: Ok(()) }, note: Note::AlertDelivered },
            Err(e) => Step {
                action: Action::Finish { outcome: Err(AnalyzerError::Telegram(e)) },
                note: Note::AlertDeliveryFailed,
            },
        }
    }

    /// The outside calls made, in order, while processing `event`, when the
    /// market-data lookup answers `fetched` and the delivery answers `delivered`.
    pub open spec fn calls(
        &self,
        event: HeliusWebhook,
        fetched: Result<TokenMetrics, MoralisError>,
        delivered: Result<(), TelegramError>,
    ) -> Seq<Call> {
        match Self::begin_call(event) {
            Call::Fetch(mint) => match self.metrics_call(event.signature@, mint, fetched) {
                Call::Deliver(to, text) => seq![Call::Fetch(mint), Call::Deliver(to, text)],
                _ => seq![Call::Fetch(mint)],
            },
            _ => Seq::empty(),
        }
    }

    /// The outcome of processing `event` under the same answers.
    pub open spec fn outcome(
        &self,
        event: HeliusWebhook,
        fetched: Result<TokenMetrics, MoralisError>,
        delivered: Result<(), TelegramError>,
    ) -> Result<(), AnalyzerError> {
        match Self::begin_call(event) {
            Call::Fetch(mint) => match self.metrics_call(event.signature@, mint, fetched) {
                Call::Deliver(_, _) => match Self::delivery_call(delivered) {
                    Call::Done(o) => o,
                    _ => Ok(()),
                },
                Call::Done(o) => o,
                _ => Ok(()),
            },
            Call::Done(o) => o,
            _ => Ok(()),
        }
    }
}

/// Number of market-data lookups among `calls`.
pub open spec fn fetch_count(calls: Seq<Call>) -> nat {
    calls.filter(|c: Call| c is Fetch).len()
}

/// Number of deliveries among `calls`.
pub open spec fn delivery_count(calls: Seq<Call>) -> nat {
    calls.filter(|c: Call| c is Deliver).len()
}

proof fn lemma_call_counts(mint: Seq<char>, to: Seq<char>, text: Seq<char>)
    ensures
        fetch_count(Seq::<Call>::empty()) == 0,
        delivery_count(Seq::<Call>::empty()) == 0,
        fetch_count(seq![Call::Fetch(mint)]) == 1,
        delivery_count(seq![Call::Fetch(mint)]) == 0,
        fetch_count(seq![Call::Fetch(mint), Call::Deliver(to, text)]) == 1,
        delivery_count(seq![Call::Fetch(mint), Call::Deliver(to, text)]) == 1,
{
    let one = seq![Call::Fetch(mint)];
    let two = seq![Call::Fetch(mint), Call::Deliver(to, text)];
    assert(one.drop_last() =~= Seq::<Call>::empty());
    assert(two.drop_last() =~= one);
    reveal_with_fuel(Seq::filter, 3);
}

/// An event without any transfer ends in success without any outside call.
pub proof fn lemma_no_transfer(
    a: Analyzer,
    event: HeliusWebhook,
    fetched: Result<TokenMetrics, MoralisError>,
    delivered: Result<(), TelegramError>,
)
    requires
        event.events.token_transfers@.len() == 0,
    ensures
        a.calls(event, fetched, delivered) == Seq::<Call>::empty(),
        fetch_count(a.calls(event, fetched, delivered)) == 0,
        delivery_count(a.calls(event, fetched, delivered)) == 0,
        a.outcome(event, fetched, delivered) == Ok::<(), AnalyzerError>(()),
{
    lemma_call_counts(Seq::empty(), Seq::empty(), Seq::empty());
}

/// Market data without a market cap ends in success, after the lookup and
/// without any delivery.
pub proof fn lemma_missing_market_cap(
    a: Analyzer,
    event: HeliusWebhook,
    metrics: TokenMetrics,
    delivered: Result<(), TelegramError>,
)
    requires
        event.events.token_transfers@.len() > 0,
        metrics.market_cap_usd is None,
    ensures
        ({
            let fetched = Ok::<TokenMetrics, MoralisError>(metrics);
            &&& a.calls(event, fetched, delivered) == seq![Call::Fetch(event.events.token_transfers@[0].mint@)]
            &&& delivery_count(a.calls(event, fetched, delivered)) == 0
            &&& a.outcome(event, fetched, delivered) == Ok::<(), AnalyzerError>(())
        }),
{
    lemma_call_counts(event.events.token_transfers@[0].mint@, Seq::empty(), Seq::empty());
}

/// A failed lookup is the event's error, and no delivery is attempted.
pub proof fn lemma_enrichment_failure(
    a: Analyzer,
    event: HeliusWebhook,
    error: MoralisError,
    delivered: Result<(), TelegramError>,
)
    requires
        event.events.token_transfers@.len() > 0,
    ensures
        ({
            let fetched = Err::<TokenMetrics, MoralisError>(error);
            &&& a.calls(event, fetched, delivered) == seq![Call::Fetch(event.events.token_transfers@[0].mint@)]
            &&& delivery_count(a.calls(event, fetched, delivered)) == 0
            &&& a.outcome(event, fetched, delivered) == Err::<(), AnalyzerError>(AnalyzerError::Moralis(error))
        }),
{
    lemma_call_counts(event.events.token_transfers@[0].mint@, Seq::empty(), Seq::empty());
}

/// A market cap that passes the filter leads to exactly one delivery, of the
/// alert naming the asset, the signature, the market cap with two decimals
/// and the price with six (or `n/a`); a successful delivery is the event's
/// success.
pub proof fn lemma_delivered_alert(a: Analyzer, event: HeliusWebhook, metrics: TokenMetrics, market_cap: i64)
    requires
        event.events.token_transfers@.len() > 0,
        metrics.market_cap_usd == Some(market_cap),
        a.cap_filter.admits(market_cap as int),
    ensures
        ({
            let fetched = Ok::<TokenMetrics, MoralisError>(metrics);
            let delivered = Ok::<(), TelegramError>(());
            let mint = event.events.token_transfers@[0].mint@;
            let text = alert_text(mint, event.signature@, market_cap as int, metrics.price_usd);
            &&& a.calls(event, fetched, delivered) == seq![Call::Fetch(mint), Call::Deliver(a.chat_id@, text)]
            &&& fetch_count(a.calls(event, fetched, delivered)) == 1
            &&& delivery_count(a.calls(event, fetched, delivered)) == 1
            &&& a.outcome(event, fetched, delivered) == Ok::<(), AnalyzerError>(())
        }),
{
    let mint = event.events.token_transfers@[0].mint@;
    lemma_call_counts(mint, a.chat_id@, alert_text(mint, event.signature@, market_cap as int, metrics.price_usd));
}

/// A market cap that passes the filter and an alert that cannot be delivered
/// make the delivery failure the event's error.
pub proof fn lemma_delivery_failure(
    a: Analyzer,
    event: HeliusWebhook,
    metrics: TokenMetrics,
    market_cap: i64,
    error: TelegramError,
)
    requires
        event.events.token_transfers@.len() > 0,
        metrics.market_cap_usd == Some(market_cap),
        a.cap_filter.admits(market_cap as int),
    ensures
        ({
            let fetched = Ok::<TokenMetrics, MoralisError>(metrics);
            let delivered = Err::<(), TelegramError>(error);
            &&& delivery_count(a.calls(event, fetched, delivered)) == 1
            &&& a.outcome(event, fetched, delivered) == Err::<(), AnalyzerError>(AnalyzerError::Telegram(error))
        }),
{
    let mint = event.events.token_transfers@[0].mint@;
    lemma_call_counts(mint, a.chat_id@, alert_text(mint, event.signature@, market_cap as int, metrics.price_usd));
}

} // verus!
