use vstd::prelude::*;

use crate::endpoint::{ConvertResult, Endpoint, Method, default_body, default_method};
use crate::list::{
    convert, decoded_result, form_urlencoded, list_failure, list_path, list_query,
    list_success,
};
use crate::time::Timestamp;

pub use crate::list::{ListError, ListReq, ListReqInit};

verus! {

/// One quote: the best bid and ask at a time.
#[derive(Debug, PartialEq, Eq)]
pub struct Quote {
    /// The time of the quote.
    pub time: Timestamp,
    /// The ask price.
    pub ask_price: num_decimal::Num,
    /// The ask size.
    pub ask_size: u64,
    /// The bid price.
    pub bid_price: num_decimal::Num,
    /// The bid size.
    pub bid_size: u64,
}

/// One page of quotes.
#[derive(Debug, PartialEq, Eq)]
pub struct Quotes {
    /// The quotes of the page, in the order the service gave them.
    pub quotes: Vec<Quote>,
    /// The symbol that the quotes belong to.
    pub symbol: String,
    /// The token that requests the next page; none on the last page.
    pub next_page_token: Option<String>,
}

/// The endpoint that lists the quotes of a symbol.
pub struct List;

impl Endpoint for List {
    type Input = ListReq;
    type Output = Quotes;
    type Error = ListError;

    open spec fn spec_method() -> Method {
        Method::Get
    }

    open spec fn spec_path(input: &ListReq) -> Seq<char> {
        list_path(*input, "/quotes"@)
    }

    open spec fn spec_query_ok(input: &ListReq) -> bool {
        true
    }

    open spec fn spec_query(input: &ListReq) -> Option<Seq<char>> {
        Some(form_urlencoded(list_query(*input)))
    }

    open spec fn spec_body(input: &ListReq) -> Option<Seq<u8>> {
        Some(Seq::empty())
    }

    open spec fn spec_success(status: u16) -> bool {
        list_success().contains(status)
    }

    open spec fn spec_failure(status: u16, body: Vec<u8>) -> ListError {
        list_failure(status, body)
    }

    open spec fn spec_decoded(d: Result<Quotes, serde_json::Error>) -> Result<Quotes, ListError> {
        decoded_result(d)
    }

    fn method() -> (r: Method) {
        default_method()
    }

    fn path(input: &ListReq) -> (r: String) {
        input.path("/quotes")
    }

    fn query(input: &ListReq) -> (r: Result<Option<String>, serde_urlencoded::ser::Error>) {
        input.query()
    }

    fn body(input: &ListReq) -> (r: Result<Vec<u8>, serde_json::Error>) {
        default_body(input)
    }

    fn convert<F>(status: u16, body: Vec<u8>, parse: F) -> (r: ConvertResult<Quotes, ListError>)
        where
            F: FnOnce(&Vec<u8>) -> Result<Quotes, serde_json::Error>,
    {
        convert(status, body, parse)
    }
}

} // verus!
