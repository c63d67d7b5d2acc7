use vstd::prelude::*;

use crate::endpoint::{ConvertResult, Endpoint, Method, default_body, default_method};
use crate::list::{
    convert, decoded_result, form_urlencoded, list_failure, list_path, list_query,
    list_success,
};
use crate::time::Timestamp;

pub use crate::list::{ListError, ListReq, ListReqInit};

verus! {

/// One trade.
#[derive(Debug, PartialEq, Eq)]
pub struct Trade {
    /// The time of the trade.
    pub timestamp: Timestamp,
    /// The price of the trade.
    pub price: num_decimal::Num,
    /// The number of shares traded.
    pub size: usize,
}

/// One page of trades.
#[derive(Debug, PartialEq, Eq)]
pub struct Trades {
    /// The trades of the page, in the order the service gave them.
    pub trades: Vec<Trade>,
    /// The symbol that the trades belong to.
    pub symbol: String,
    /// The token that requests the next page; none on the last page.
    pub next_page_token: Option<String>,
}

/// The endpoint that lists the trades of a symbol.
pub struct List;

impl Endpoint for List {
    type Input = ListReq;
    type Output = Trades;
    type Error = ListError;

    open spec fn spec_method() -> Method {
        Method::Get
    }

    open spec fn spec_path(input: &ListReq) -> Seq<char> {
        list_path(*input, "/trades"@)
    }

    open spec fn spec_query_ok(input: &ListReq) -> bool {
        true
    }

    open spec fn spec_query(input: &ListReq) -> Option<Seq<char>> {
        Some(form_urlencoded(list_query(*input)))
    }

    open spec fn spec_body(input: &ListReq) -> Option<Seq<u8>> {
        Some(Seq::empty())
    }

    open spec fn spec_success(status: u16) -> bool {
        list_success().contains(status)
    }

    open spec fn spec_failure(status: u16, body: Vec<u8>) -> ListError {
        list_failure(status, body)
    }

    open spec fn spec_decoded(d: Result<Trades, serde_json::Error>) -> Result<Trades, ListError> {
        decoded_result(d)
    }

    fn method() -> (r: Method) {
        default_method()
    }

    fn path(input: &ListReq) -> (r: String) {
        input.path("/trades")
    }

    fn query(input: &ListReq) -> (r: Result<Option<String>, serde_urlencoded::ser::Error>) {
        input.query()
    }

    fn body(input: &ListReq) -> (r: Result<Vec<u8>, serde_json::Error>) {
        default_body(input)
    }

    fn convert<F>(status: u16, body: Vec<u8>, parse: F) -> (r: ConvertResult<Trades, ListError>)
        where
            F: FnOnce(&Vec<u8>) -> Result<Trades, serde_json::Error>,
    {
        convert(status, body, parse)
    }
}

} // verus!
