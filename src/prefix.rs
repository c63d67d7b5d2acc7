use vstd::prelude::*;

verus! {

/// The market segment that a market-data request addresses.
#[derive(Debug, Clone, Copy, PartialEq, Eq, Structural)]
pub enum MarketPrefix {
    /// US equities.
    Stocks,
    /// Crypto currencies.
    Crypto,
}

/// The path segment that introduces requests for a market segment.
pub open spec fn prefix_path(p: MarketPrefix) -> Seq<char> {
    match p {
        MarketPrefix::Stocks => "/v2/stocks/"@,
        MarketPrefix::Crypto => "/v1beta3/crypto/us/"@,
    }
}

impl MarketPrefix {
    /// The path segment of this market segment, with leading and
    /// trailing slash.
    pub fn as_path(&self) -> (r: &'static str)
        ensures
            r@ == prefix_path(*self),
    {
        match self {
            MarketPrefix::Stocks => "/v2/stocks/",
            MarketPrefix::Crypto => "/v1beta3/crypto/us/",
        }
    }

    /// The path segment as an owned string.
    pub fn to_string(&self) -> (r: String)
        ensures
            r@ == prefix_path(*self),
    {
        String::from_str(self.as_path())
    }
}

impl Default for MarketPrefix {
    fn default() -> (r: MarketPrefix)
        ensures
            r == MarketPrefix::Stocks,
    {
        MarketPrefix::Stocks
    }
}

} // verus!
