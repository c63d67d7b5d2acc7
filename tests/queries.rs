use apca::endpoint::{default_body, default_method, default_query, Endpoint, Method, HDR_KEY_ID, HDR_SECRET};
use apca::feed::Feed;
use apca::prefix::MarketPrefix;
use apca::time::Timestamp;
use apca::trades::{List, ListReq, ListReqInit};

fn at(text: &str) -> Timestamp {
    Timestamp::parse(text).unwrap()
}

fn request(init: ListReqInit) -> ListReq {
    init.init(
        "AAPL",
        MarketPrefix::Stocks,
        at("2018-12-03T21:47:00Z"),
        at("2018-12-06T21:47:00Z"),
    )
}

fn pairs(r: &ListReq) -> Vec<(String, String)> {
    r.query_pairs()
}

#[test]
fn init_carries_fields() {
    let r = ListReqInit {
        limit: Some(2),
        feed: Some(Feed::SIP),
        page_token: Some("abc".to_string()),
    }
    .init("SPY", MarketPrefix::Crypto, at("2018-12-03T21:47:00Z"), at("2018-12-06T21:47:00Z"));
    assert_eq!(r.symbol, "SPY");
    assert_eq!(r.prefix, MarketPrefix::Crypto);
    assert_eq!(r.limit, Some(2));
    assert_eq!(r.feed, Some(Feed::SIP));
    assert_eq!(r.page_token, Some("abc".to_string()));
    assert_eq!(r.start, at("2018-12-03T21:47:00Z"));
    assert_eq!(r.end, at("2018-12-06T21:47:00Z"));
}

#[test]
fn default_init_is_empty() {
    let init = ListReqInit::default();
    assert_eq!(init.limit, None);
    assert_eq!(init.feed, None);
    assert_eq!(init.page_token, None);
}

#[test]
fn absent_fields_are_omitted() {
    let r = request(ListReqInit::default());
    let p = pairs(&r);
    assert_eq!(
        p,
        vec![
            ("start".to_string(), "2018-12-03T21:47:00Z".to_string()),
            ("end".to_string(), "2018-12-06T21:47:00Z".to_string()),
        ]
    );
    let q = List::query(&r).unwrap().unwrap();
    assert_eq!(q, "start=2018-12-03T21%3A47%3A00Z&end=2018-12-06T21%3A47%3A00Z");
    assert!(!q.contains("feed="));
    assert!(!q.contains("page_token="));
    assert!(!q.contains("limit="));
}

#[test]
fn all_fields_in_order() {
    let r = request(ListReqInit {
        limit: Some(2),
        feed: Some(Feed::IEX),
        page_token: Some("MjAy/MS0=".to_string()),
    });
    let q = List::query(&r).unwrap().unwrap();
    assert_eq!(
        q,
        "start=2018-12-03T21%3A47%3A00Z&end=2018-12-06T21%3A47%3A00Z&limit=2&feed=iex&page_token=MjAy%2FMS0%3D"
    );
}

#[test]
fn limit_only() {
    let r = request(ListReqInit { limit: Some(10000), ..Default::default() });
    let p = pairs(&r);
    assert_eq!(p.len(), 3);
    assert_eq!(p[2], ("limit".to_string(), "10000".to_string()));
}

#[test]
fn query_round_trip() {
    let r = request(ListReqInit {
        limit: Some(2),
        ..Default::default()
    });
    let r = ListReq {
        start: at("2021-02-06T13:04:56.334320128Z"),
        ..r
    };
    let q = List::query(&r).unwrap().unwrap();
    let echoed: Vec<(String, String)> = serde_urlencoded::from_str(&q).unwrap();
    let value = |name: &str| {
        echoed.iter().find(|(k, _)| k == name).map(|(_, v)| v.clone()).unwrap()
    };
    assert_eq!(Timestamp::parse(&value("start")), Some(r.start));
    assert_eq!(Timestamp::parse(&value("end")), Some(r.end));
    assert_eq!(value("limit").parse::<usize>().unwrap(), 2);
}

#[test]
fn request_is_assembled() {
    let r = request(ListReqInit { limit: Some(2), ..Default::default() });
    let req = List::request(b"key", b"secret", &r).unwrap();
    assert_eq!(req.method, Method::Get);
    assert_eq!(List::method(), Method::Get);
    assert_eq!(req.path, "/v2/stocks/AAPL/trades");
    assert_eq!(
        req.query.as_deref(),
        Some("start=2018-12-03T21%3A47%3A00Z&end=2018-12-06T21%3A47%3A00Z&limit=2")
    );
    assert_eq!(
        req.headers,
        vec![
            (HDR_KEY_ID.to_string(), b"key".to_vec()),
            (HDR_SECRET.to_string(), b"secret".to_vec()),
        ]
    );
    assert!(req.body.is_empty());
    assert!(List::body(&r).unwrap().is_empty());
}

#[test]
fn next_page_carries_token() {
    let r = request(ListReqInit { limit: Some(2), ..Default::default() });
    let next = r.next_page(&Some("MjAyMS0wMi0wNlQxMzowOTo0Mlo7MQ==".to_string())).unwrap();
    assert_eq!(next.page_token.as_deref(), Some("MjAyMS0wMi0wNlQxMzowOTo0Mlo7MQ=="));
    assert_eq!(next.limit, Some(2));
    assert_eq!(next.symbol, "AAPL");
    assert_eq!(next.start, r.start);
    assert_eq!(next.end, r.end);
    assert!(r.next_page(&None).is_none());
}

#[test]
fn endpoint_defaults() {
    assert_eq!(default_method(), Method::Get);
    assert_eq!(default_query(&()).unwrap(), None);
    assert!(default_body(&()).unwrap().is_empty());
}

#[test]
fn query_is_always_built() {
    let r = request(ListReqInit {
        limit: Some(0),
        feed: Some(Feed::SIP),
        page_token: Some("&=?# ü".to_string()),
    });
    let q = List::query(&r).unwrap().unwrap();
    assert_eq!(
        q,
        "start=2018-12-03T21%3A47%3A00Z&end=2018-12-06T21%3A47%3A00Z&limit=0&feed=sip&page_token=%26%3D%3F%23+%C3%BC"
    );
    assert_eq!(List::query(&r).unwrap().unwrap(), q);
    assert!(List::request(b"", b"", &r).is_ok());
}
