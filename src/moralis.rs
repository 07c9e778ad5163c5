use vstd::prelude::*;
use crate::http::{is_success, success_status, trim_base_url, without_trailing_slashes};

verus! {

/// Market data of one asset. Both values may be unknown.
/// The price is in millionths of a US dollar, the market capitalization in cents.
#[derive(Clone, Copy, Debug, PartialEq, Eq)]
pub struct TokenMetrics {
    pub price_usd: Option<i64>,
    pub market_cap_usd: Option<i64>,
}

/// Failure of a market-data lookup.
#[derive(Clone, Debug)]
pub enum MoralisError {
    /// The request did not complete, or its body was not the expected shape.
    Transport(String),
    /// The service answered with a status outside the success class.
    HttpStatus(u16),
}

/// What the market-data client needs to address the price endpoint.
#[derive(Clone, Debug)]
pub struct MoralisClient {
    pub api_key: String,
    pub base_url: String,
}

impl MoralisClient {
    pub fn new(api_key: String, base_url: String) -> (r: MoralisClient)
        ensures
            r.api_key == api_key,
            r.base_url@ == without_trailing_slashes(base_url@),
    {
        let base_url = trim_base_url(base_url.as_str());
        MoralisClient { api_key, base_url }
    }

    /// The price endpoint of `mint` on the Solana network.
    pub open spec fn price_url_spec(&self, mint: Seq<char>) -> Seq<char> {
        self.base_url@ + "/tokens/"@ + mint + "/price?chain=solana"@
    }

    pub fn price_url(&self, mint: &str) -> (r: String)
        ensures
            r@ == self.price_url_spec(mint@),
    {
        let mut r = self.base_url.clone();
        r.append("/tokens/");
        r.append(mint);
        r.append("/price?chain=solana");
        r
    }

    /// Outcome of a lookup that got an answer with `status`, whose body
    /// decoded to `decoded` (or failed to decode, with the given detail).
    pub open spec fn response_outcome(status: u16, decoded: Result<TokenMetrics, String>) -> Result<TokenMetrics, MoralisError> {
        if !success_status(status) {
            Err(MoralisError::HttpStatus(status))
        } else {
            match decoded {
                Ok(m) => Ok(m),
                Err(detail) => Err(MoralisError::Transport(detail)),
            }
        }
    }

    pub fn metrics_from_response(status: u16, decoded: Result<TokenMetrics, String>) -> (r: Result<TokenMetrics, MoralisError>)
        ensures
            r == Self::response_outcome(status, decoded),
    {
        if !is_success(status) {
            return Err(MoralisError::HttpStatus(status));
        }
        match decoded {
            Ok(m) => Ok(m),
            Err(detail) => Err(MoralisError::Transport(detail)),
        }
    }
}

} // verus!
