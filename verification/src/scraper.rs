//! The price source: which assets exist and how the request for a price is
//! addressed.

use bigdecimal::BigDecimal;
use vstd::prelude::*;
use vstd::string::StringExecFns;

verus! {

/// The assets whose price the service follows.
#[derive(Clone, Copy, Debug, PartialEq, Eq, Structural)]
pub enum Token {
    Bitcoin,
}

impl Token {
    /// The identifier by which the price source knows the asset, in lower
    /// case. It is also the symbol under which records are stored.
    pub open spec fn symbol(self) -> Seq<char> {
        match self {
            Token::Bitcoin => "bitcoin"@,
        }
    }

    /// The canonical string form of the token.
    pub fn to_string(&self) -> (s: String)
        ensures
            s@ == self.symbol(),
    {
        match self {
            Token::Bitcoin => String::from_str("bitcoin"),
        }
    }
}

/// The one failure that the price source reports: whatever went wrong
/// (network, malformed payload, missing field), the price is temporarily
/// unavailable.
#[derive(Clone, Copy, Debug, PartialEq, Eq, Structural)]
pub struct PriceUnavailable;

/// The name of the request header that carries the API key.
pub const API_KEY_HEADER: &'static str = "x-cg-demo-api-key";

/// The address at which the price source below `base` answers for the
/// price of `token` in US dollars.
pub open spec fn price_url_of(base: Seq<char>, token: Token) -> Seq<char> {
    base + "/api/v3/simple/price?ids="@ + token.symbol() + "&vs_currencies=usd"@
}

/// The price source: where it is and the key that requests carry.
#[derive(Debug)]
pub struct GeckoScraper {
    base_api_url: String,
    api_key: String,
}

impl GeckoScraper {
    pub closed spec fn base_url(&self) -> Seq<char> {
        self.base_api_url@
    }

    pub closed spec fn key(&self) -> Seq<char> {
        self.api_key@
    }

    /// The price source at `base_url`, asked with `api_key`.
    pub fn new(base_url: String, api_key: String) -> (scraper: GeckoScraper)
        ensures
            scraper.base_url() == base_url@,
            scraper.key() == api_key@,
    {
        GeckoScraper { base_api_url: base_url, api_key }
    }

    /// The address to ask for the price of `token`.
    pub fn price_url(&self, token: Token) -> (url: String)
        ensures
            url@ == price_url_of(self.base_url(), token),
    {
        let mut url = self.base_api_url.clone();
        url.append("/api/v3/simple/price?ids=");
        url.append(token.to_string().as_str());
        url.append("&vs_currencies=usd");
        url
    }

    /// The key to send under `API_KEY_HEADER`.
    pub fn api_key(&self) -> (key: &str)
        ensures
            key@ == self.key(),
    {
        self.api_key.as_str()
    }
}

/// What the poller is told of an answer of the price source: the price, if
/// the answer held one for the token in US dollars, and else the one failure
/// that there is.
pub fn price_from_reading(reading: Option<BigDecimal>) -> (fetched: Result<
    BigDecimal,
    PriceUnavailable,
>)
    ensures
        fetched == match reading {
            Some(price) => Ok::<BigDecimal, PriceUnavailable>(price),
            None => Err::<BigDecimal, PriceUnavailable>(PriceUnavailable),
        },
{
    match reading {
        Some(price) => Ok(price),
        None => Err(PriceUnavailable),
    }
}

} // verus!
