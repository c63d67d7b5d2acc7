use vstd::prelude::*;

verus! {

/// The source of market data that a request asks for.
#[derive(Debug, Clone, Copy, PartialEq, Eq, Structural)]
pub enum Feed {
    /// The Investors Exchange, open to every account.
    IEX,
    /// All US exchanges, for accounts with the unlimited plan.
    SIP,
}

/// The query value that selects a feed.
pub open spec fn feed_text(f: Feed) -> Seq<char> {
    match f {
        Feed::IEX => "iex"@,
        Feed::SIP => "sip"@,
    }
}

impl Feed {
    /// The query value that selects this feed.
    pub fn as_str(&self) -> (r: &'static str)
        ensures
            r@ == feed_text(*self),
    {
        match self {
            Feed::IEX => "iex",
            Feed::SIP => "sip",
        }
    }
}

} // verus!
