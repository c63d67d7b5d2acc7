use vstd::prelude::*;

use crate::decimal::{decimal_string, decimal_text, decimal_value, lemma_decimal_round_trip};
use crate::endpoint::{Class, ConvertResult, StatusTable, classify_spec, text_of};
use crate::feed::{Feed, feed_text};
use crate::prefix::{MarketPrefix, prefix_path};
use crate::time::{Timestamp, timestamp_text};

verus! {

/// serde_json's error, carried unread in `DecodeFailure`.
#[verifier::external_type_specification]
#[verifier::external_body]
pub struct ExJsonError(serde_json::Error);

/// hyper's HTTP error, carried unread where a request cannot be built.
#[verifier::external_type_specification]
#[verifier::external_body]
pub struct ExHttpError(hyper::http::Error);

/// hyper's error, carried unread in `TransportFailure`.
#[verifier::external_type_specification]
#[verifier::external_body]
pub struct ExHyperError(hyper::Error);

/// serde_urlencoded's error, handed on unread where a query cannot be
/// encoded.
#[verifier::external_type_specification]
#[verifier::external_body]
pub struct ExUrlencodedError(serde_urlencoded::ser::Error);

/// The failures that the table of a list endpoint names.
#[derive(Debug, Clone, Copy, PartialEq, Eq, Structural)]
pub enum ListStatus {
    /// 400: a parameter was invalid, or the symbol is not known.
    InvalidInput,
    /// 403: the account may not use the data requested.
    NotPermitted,
}

/// The errors of a list endpoint.
#[derive(Debug)]
pub enum ListError {
    /// A parameter was invalid, or the symbol is not known; carries the
    /// response body.
    InvalidInput(Vec<u8>),
    /// The account may not use the data requested (such as the SIP feed);
    /// carries the response body.
    NotPermitted(Vec<u8>),
    /// The credentials were rejected.
    AuthenticationFailed,
    /// Too many requests were issued.
    RateLimitExceeded,
    /// A status that the endpoint does not know.
    UnexpectedStatus(u16),
    /// The request could not be made or answered.
    TransportFailure(hyper::Error),
    /// The body of a success response could not be decoded.
    DecodeFailure(serde_json::Error),
}

/// The statuses on which a list endpoint answers with a page.
pub open spec fn list_success() -> Seq<u16> {
    seq![200u16]
}

/// The failures that a list endpoint names.
pub open spec fn list_entries() -> Seq<(u16, ListStatus)> {
    seq![(400u16, ListStatus::InvalidInput), (403u16, ListStatus::NotPermitted)]
}

/// The status table of the list endpoints.
pub fn list_table() -> (r: StatusTable<ListStatus>)
    ensures
        r.wf(),
        r.success@ == list_success(),
        r.entries@ == list_entries(),
{
    let r = StatusTable {
        success: vec![200u16],
        entries: vec![(400u16, ListStatus::InvalidInput), (403u16, ListStatus::NotPermitted)],
    };
    assert(r.success@ =~= list_success());
    assert(r.entries@ =~= list_entries());
    r
}

/// The error of a list endpoint for a status that is not a success.
pub open spec fn list_failure(status: u16, body: Vec<u8>) -> ListError {
    match classify_spec(list_success(), list_entries(), status) {
        Class::Listed(ListStatus::InvalidInput) => ListError::InvalidInput(body),
        Class::Listed(ListStatus::NotPermitted) => ListError::NotPermitted(body),
        Class::AuthenticationFailed => ListError::AuthenticationFailed,
        Class::RateLimitExceeded => ListError::RateLimitExceeded,
        _ => ListError::UnexpectedStatus(status),
    }
}

/// The result for a decoded success body.
pub open spec fn decoded_result<T>(d: Result<T, serde_json::Error>) -> Result<T, ListError> {
    match d {
        Ok(v) => Ok(v),
        Err(e) => Err(ListError::DecodeFailure(e)),
    }
}

/// Whether a list endpoint answers with a page on `status`.
pub fn is_success(status: u16) -> (r: bool)
    ensures
        r == list_success().contains(status),
{
    let t = list_table();
    match t.classify(status) {
        Class::Success => true,
        _ => false,
    }
}

/// Converts the status and body of a response of a list endpoint.
///
/// On a success status the body is handed to `parse`, and its result is
/// the page or, where decoding failed, `DecodeFailure`. On any other
/// status `parse` is not called, and the status table decides the error.
pub fn convert<T, F>(status: u16, body: Vec<u8>, parse: F) -> (r: ConvertResult<T, ListError>)
    where
        F: FnOnce(&Vec<u8>) -> Result<T, serde_json::Error>,
    requires
        forall|b: &Vec<u8>| #[trigger] parse.requires((b,)),
    ensures
        list_success().contains(status) ==> exists|d: Result<T, serde_json::Error>|
            #[trigger] parse.ensures((&body,), d) && r.0 == decoded_result(d),
        !list_success().contains(status) ==> r.0 == Err::<T, ListError>(list_failure(status, body)),
{
    let t = list_table();
    match t.classify(status) {
        Class::Success => {
            let d = parse(&body);
            match d {
                Ok(v) => ConvertResult(Ok(v)),
                Err(e) => ConvertResult(Err(ListError::DecodeFailure(e))),
            }
        },
        Class::AuthenticationFailed => ConvertResult(Err(ListError::AuthenticationFailed)),
        Class::RateLimitExceeded => ConvertResult(Err(ListError::RateLimitExceeded)),
        Class::Listed(ListStatus::InvalidInput) => ConvertResult(Err(ListError::InvalidInput(body))),
        Class::Listed(ListStatus::NotPermitted) => ConvertResult(Err(ListError::NotPermitted(body))),
        Class::UnexpectedStatus(s) => ConvertResult(Err(ListError::UnexpectedStatus(s))),
    }
}


/// The text of query pairs.
pub open spec fn pairs_view(v: Seq<(String, String)>) -> Seq<(Seq<char>, Seq<char>)> {
    v.map_values(|p: (String, String)| (p.0@, p.1@))
}

/// The `application/x-www-form-urlencoded` text of a sequence of pairs,
/// in their order.
pub uninterp spec fn form_urlencoded(pairs: Seq<(Seq<char>, Seq<char>)>) -> Seq<char>;

/// Relies on `serde_urlencoded::to_string` over a sequence of string
/// pairs, which it encodes as `name=value` joined by `&`, in order; a
/// string key and a string value are always accepted, so it succeeds.
#[verifier::external_body]
fn encode_pairs(pairs: &Vec<(String, String)>) -> (r: Result<String, serde_urlencoded::ser::Error>)
    ensures
        r is Ok,
        r matches Ok(s) ==> s@ == form_urlencoded(pairs_view(pairs@)),
{
    serde_urlencoded::to_string(pairs)
}

/// One pair where a value is given, none otherwise.
pub open spec fn optional_pair(name: Seq<char>, value: Option<Seq<char>>) -> Seq<(Seq<char>, Seq<char>)> {
    match value {
        Some(v) => seq![(name, v)],
        None => Seq::empty(),
    }
}

/// A request for one page of market data of one symbol.
#[derive(Clone, Debug, PartialEq, Eq)]
pub struct ListReq {
    /// The symbol to retrieve data for.
    pub symbol: String,
    /// The market segment of the symbol.
    pub prefix: MarketPrefix,
    /// Data at or after this time.
    pub start: Timestamp,
    /// Data at or before this time.
    pub end: Timestamp,
    /// The largest number of items in a page; the service accepts 1 to
    /// 10000 and reports other values as invalid input.
    pub limit: Option<usize>,
    /// The data feed to use.
    pub feed: Option<Feed>,
    /// The token of the page to continue with.
    pub page_token: Option<String>,
}

/// The query pairs of a list request: `start` and `end` always, then
/// `limit`, `feed` and `page_token` where they are given.
pub open spec fn list_query(r: ListReq) -> Seq<(Seq<char>, Seq<char>)> {
    seq![("start"@, timestamp_text(r.start)), ("end"@, timestamp_text(r.end))]
        + optional_pair(
        "limit"@,
        match r.limit {
            Some(l) => Some(decimal_text(l as nat)),
            None => None,
        },
    ) + optional_pair(
        "feed"@,
        match r.feed {
            Some(f) => Some(feed_text(f)),
            None => None,
        },
    ) + optional_pair("page_token"@, text_of(r.page_token))
}

/// Whether some pair carries the parameter `name`.
pub open spec fn has_param(pairs: Seq<(Seq<char>, Seq<char>)>, name: Seq<char>) -> bool {
    exists|i: int| 0 <= i < pairs.len() && #[trigger] pairs[i].0 == name
}

/// The path of a list endpoint: the market segment, the symbol and the
/// operation.
pub open spec fn list_path(r: ListReq, operation: Seq<char>) -> Seq<char> {
    prefix_path(r.prefix) + r.symbol@ + operation
}

fn push_pair(v: &mut Vec<(String, String)>, name: &str, value: String)
    ensures
        pairs_view(final(v)@) == pairs_view(old(v)@).push((name@, value@)),
{
    let ghost before = v@;
    v.push((String::from_str(name), value));
    assert(pairs_view(v@) =~= pairs_view(before).push((name@, value@)));
}

impl ListReq {
    /// The query pairs of this request, in order.
    pub fn query_pairs(&self) -> (r: Vec<(String, String)>)
        ensures
            pairs_view(r@) == list_query(*self),
    {
        let mut v: Vec<(String, String)> = Vec::new();
        proof {
            reveal_strlit("start");
            reveal_strlit("end");
            reveal_strlit("limit");
            reveal_strlit("feed");
            reveal_strlit("page_token");
        }
        push_pair(&mut v, "start", self.start.to_rfc3339());
        push_pair(&mut v, "end", self.end.to_rfc3339());
        assert(pairs_view(v@) =~= seq![("start"@, timestamp_text(self.start)), ("end"@, timestamp_text(self.end))]);
        let ghost base = pairs_view(v@);
        match self.limit {
            Some(l) => push_pair(&mut v, "limit", decimal_string(l as u64)),
            None => {},
        }
        let ghost with_limit = pairs_view(v@);
        assert(with_limit =~= base + optional_pair(
            "limit"@,
            match self.limit {
                Some(l) => Some(decimal_text(l as nat)),
                None => None,
            },
        ));
        match self.feed {
            Some(f) => push_pair(&mut v, "feed", String::from_str(f.as_str())),
            None => {},
        }
        let ghost with_feed = pairs_view(v@);
        assert(with_feed =~= with_limit + optional_pair(
            "feed"@,
            match self.feed {
                Some(f) => Some(feed_text(f)),
                None => None,
            },
        ));
        match &self.page_token {
            Some(t) => push_pair(&mut v, "page_token", t.clone()),
            None => {},
        }
        assert(pairs_view(v@) =~= with_feed + optional_pair("page_token"@, text_of(self.page_token)));
        v
    }

    /// The query of this request, form encoded.
    pub fn query(&self) -> (r: Result<Option<String>, serde_urlencoded::ser::Error>)
        ensures
            r matches Ok(q) && q matches Some(s) && s@ == form_urlencoded(list_query(*self)),
    {
        let pairs = self.query_pairs();
        match encode_pairs(&pairs) {
            Ok(s) => Ok(Some(s)),
            Err(e) => Err(e),
        }
    }

    /// The path of the endpoint `operation` (such as `/trades`) for this
    /// request.
    pub fn path(&self, operation: &str) -> (r: String)
        ensures
            r@ == list_path(*self, operation@),
    {
        let mut p = self.prefix.to_string();
        p.append(self.symbol.as_str());
        p.append(operation);
        p
    }

    /// The request for the page after one that came with
    /// `next_page_token`; none where that page was the last.
    pub fn next_page(&self, next_page_token: &Option<String>) -> (r: Option<ListReq>)
        ensures
            r is None <==> next_page_token is None,
            r matches Some(n) ==> {
                &&& n.symbol@ == self.symbol@
                &&& n.prefix == self.prefix
                &&& n.start == self.start
                &&& n.end == self.end
                &&& n.limit == self.limit
                &&& n.feed == self.feed
                &&& text_of(n.page_token) == text_of(*next_page_token)
            },
    {
        match next_page_token {
            Some(t) => Some(ListReq {
                symbol: self.symbol.clone(),
                prefix: self.prefix,
                start: self.start,
                end: self.end,
                limit: self.limit,
                feed: self.feed,
                page_token: Some(t.clone()),
            }),
            None => None,
        }
    }
}

/// A helper for building a `ListReq`: the optional fields, to be joined
/// with the symbol, market segment and time range.
#[derive(Clone, Debug, PartialEq, Eq)]
pub struct ListReqInit {
    /// See `ListReq::limit`.
    pub limit: Option<usize>,
    /// See `ListReq::feed`.
    pub feed: Option<Feed>,
    /// See `ListReq::page_token`.
    pub page_token: Option<String>,
}

impl Default for ListReqInit {
    fn default() -> (r: ListReqInit)
        ensures
            r.limit is None,
            r.feed is None,
            r.page_token is None,
    {
        ListReqInit { limit: None, feed: None, page_token: None }
    }
}

impl ListReqInit {
    /// Creates a `ListReq` from these optional fields.
    pub fn init(self, symbol: &str, prefix: MarketPrefix, start: Timestamp, end: Timestamp) -> (r: ListReq)
        ensures
            r.symbol@ == symbol@,
            r.prefix == prefix,
            r.start == start,
            r.end == end,
            r.limit == self.limit,
            r.feed == self.feed,
            r.page_token == self.page_token,
    {
        ListReq {
            symbol: String::from_str(symbol),
            prefix,
            start,
            end,
            limit: self.limit,
            feed: self.feed,
            page_token: self.page_token,
        }
    }
}


/// num-decimal's rational number, the price of a trade or quote, carried
/// unread.
#[verifier::external_type_specification]
#[verifier::external_body]
pub struct ExNum(num_decimal::Num);


proof fn lemma_only_200_succeeds(status: u16)
    ensures
        list_success().contains(status) <==> status == 200,
{
    assert(list_success()[0] == 200u16);
}

/// How the list endpoints classify responses: on their success status
/// the result is exactly what the decoder made of the body; 401 and 429
/// are the universal failures; 400 and 403 are the endpoints' own; and
/// any other status is unexpected, with the status kept.
pub proof fn lemma_list_classification<T>(status: u16, body: Vec<u8>, d: Result<T, serde_json::Error>)
    ensures
        list_success().contains(200u16),
        d matches Ok(v) ==> decoded_result(d) == Ok::<T, ListError>(v),
        !list_success().contains(401u16) && list_failure(401u16, body) == ListError::AuthenticationFailed,
        !list_success().contains(429u16) && list_failure(429u16, body) == ListError::RateLimitExceeded,
        list_failure(400u16, body) == ListError::InvalidInput(body),
        list_failure(403u16, body) == ListError::NotPermitted(body),
        (status != 200 && status != 400 && status != 403 && status != 401 && status != 429) ==> {
            &&& !list_success().contains(status)
            &&& list_failure(status, body) == ListError::UnexpectedStatus(status)
        },
{
    let e = list_entries();
    lemma_only_200_succeeds(status);
    lemma_only_200_succeeds(200u16);
    lemma_only_200_succeeds(401u16);
    lemma_only_200_succeeds(429u16);
    lemma_only_200_succeeds(400u16);
    lemma_only_200_succeeds(403u16);
    assert(e[0].0 == 400u16);
    assert(e[1].0 == 403u16);
    if status != 200 && status != 400 && status != 403 && status != 401 && status != 429 {
        assert(!(exists|i: int| 0 <= i < e.len() && e[i].0 == status)) by {
            if exists|i: int| 0 <= i < e.len() && e[i].0 == status {
                let i = choose|i: int| 0 <= i < e.len() && e[i].0 == status;
                assert(i == 0 || i == 1);
            }
        }
    }
    let c = choose|i: int| 0 <= i < e.len() && e[i].0 == 400u16;
    assert(c == 0);
    let c2 = choose|i: int| 0 <= i < e.len() && e[i].0 == 403u16;
    assert(c2 == 1);
}

/// Where a request leaves out an optional field, its query carries no
/// parameter of that name: no `limit`, `feed` or `page_token` pair, not
/// even an empty one.
pub proof fn lemma_absent_fields_omitted(r: ListReq)
    ensures
        r.limit is None ==> !has_param(list_query(r), "limit"@),
        r.feed is None ==> !has_param(list_query(r), "feed"@),
        r.page_token is None ==> !has_param(list_query(r), "page_token"@),
        has_param(list_query(r), "start"@),
        has_param(list_query(r), "end"@),
{
    reveal_strlit("start");
    reveal_strlit("end");
    reveal_strlit("limit");
    reveal_strlit("feed");
    reveal_strlit("page_token");
    let q = list_query(r);
    assert(q[0].0 == "start"@);
    assert(q[1].0 == "end"@);
    assert("start"@[0] != "limit"@[0]);
    assert forall|i: int| 0 <= i < q.len() implies {
        &&& (r.limit is None ==> q[i].0 != "limit"@)
        &&& (r.feed is None ==> q[i].0 != "feed"@)
        &&& (r.page_token is None ==> q[i].0 != "page_token"@)
    } by {
        assert(q[i].0 == "start"@ || q[i].0 == "end"@ || (r.limit is Some && q[i].0 == "limit"@) || (r.feed is Some && q[i].0 == "feed"@) || (r.page_token is Some && q[i].0 == "page_token"@));
    }
}


/// The value of the first pair named `name`, as a server reads a query.
pub open spec fn param_value(pairs: Seq<(Seq<char>, Seq<char>)>, name: Seq<char>) -> Option<Seq<char>>
    decreases pairs.len(),
{
    if pairs.len() == 0 {
        None
    } else if pairs[0].0 == name {
        Some(pairs[0].1)
    } else {
        param_value(pairs.drop_first(), name)
    }
}

proof fn lemma_param_absent(pairs: Seq<(Seq<char>, Seq<char>)>, name: Seq<char>)
    requires
        !has_param(pairs, name),
    ensures
        param_value(pairs, name) is None,
    decreases pairs.len(),
{
    if pairs.len() > 0 {
        assert(pairs[0].0 != name);
        let rest = pairs.drop_first();
        assert forall|i: int| 0 <= i < rest.len() implies #[trigger] rest[i].0 != name by {
            assert(rest[i] == pairs[i + 1]);
        }
        lemma_param_absent(rest, name);
    }
}

/// What a server reads back from the query of a request: `start` and
/// `end` carry the RFC 3339 text of the request's timestamps, and `limit`,
/// read as a decimal number, gives the request's limit exactly, or is
/// absent where the request has none.
pub proof fn lemma_query_echo(r: ListReq)
    ensures
        param_value(list_query(r), "start"@) == Some(timestamp_text(r.start)),
        param_value(list_query(r), "end"@) == Some(timestamp_text(r.end)),
        r.limit matches Some(l) ==> (param_value(list_query(r), "limit"@) matches Some(v) && decimal_value(v) == l),
        r.limit is None ==> param_value(list_query(r), "limit"@) is None,
{
    reveal_strlit("start");
    reveal_strlit("end");
    reveal_strlit("limit");
    let q = list_query(r);
    assert("start"@[0] != "limit"@[0]);
    assert(q[0] == ("start"@, timestamp_text(r.start)));
    assert(q[1] == ("end"@, timestamp_text(r.end)));
    let q1 = q.drop_first();
    assert(q1[0] == q[1]);
    assert(param_value(q1, "end"@) == Some(timestamp_text(r.end)));
    match r.limit {
        Some(l) => {
            let q2 = q1.drop_first();
            assert(q2[0] == q[2]);
            assert(q[2] == ("limit"@, decimal_text(l as nat)));
            assert(param_value(q2, "limit"@) == Some(decimal_text(l as nat)));
            assert(param_value(q1, "limit"@) == param_value(q2, "limit"@));
            lemma_decimal_round_trip(l as nat);
        },
        None => {
            lemma_absent_fields_omitted(r);
            lemma_param_absent(q, "limit"@);
        },
    }
}

} // verus!
