//! Values that travel between the components: points in time and the
//! transport form of a price.

use crate::scraper::Token;
use vstd::prelude::*;

verus! {

/// A point in time: the whole seconds since the Unix epoch and the
/// nanoseconds that have passed since that second began.
#[derive(Clone, Copy, Debug, PartialEq, Eq, Structural)]
pub struct UnixTime {
    pub secs: u64,
    pub nanos: u32,
}

impl UnixTime {
    /// Whether this moment lies strictly after the start of second `since`.
    pub open spec fn is_after(self, since: int) -> bool {
        self.secs > since || (self.secs == since && self.nanos > 0)
    }

    /// Compares this moment with the start of second `since` of the Unix
    /// era; a negative `since` lies before every moment.
    pub fn after(&self, since: i64) -> (later: bool)
        ensures
            later == self.is_after(since as int),
    {
        if since < 0 {
            true
        } else {
            let bound: u64 = since as u64;
            self.secs > bound || (self.secs == bound && self.nanos > 0)
        }
    }
}

/// A price as it is broadcast and as the read endpoint returns it.
#[derive(Debug)]
pub struct TokenPrice {
    pub symbol: Token,
    /// Unix seconds.
    pub timestamp: u64,
    /// The price in decimal notation.
    pub price: String,
}

/// What contracts see of a `TokenPrice`.
pub struct TokenPriceView {
    pub symbol: Token,
    pub timestamp: u64,
    pub price: Seq<char>,
}

impl View for TokenPrice {
    type V = TokenPriceView;

    open spec fn view(&self) -> TokenPriceView {
        TokenPriceView { symbol: self.symbol, timestamp: self.timestamp, price: self.price@ }
    }
}

impl Clone for TokenPrice {
    fn clone(&self) -> (copy: Self)
        ensures
            copy == *self,
    {
        TokenPrice { symbol: self.symbol, timestamp: self.timestamp, price: self.price.clone() }
    }
}

} // verus!
