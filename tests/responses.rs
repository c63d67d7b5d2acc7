use std::str::FromStr;

use apca::endpoint::{Endpoint, Class, ConvertResult, StatusTable};
use apca::list::{convert, is_success, list_table, ListError, ListStatus};
use apca::pagination::Pager;
use apca::prefix::MarketPrefix;
use apca::quotes;
use apca::time::Timestamp;
use apca::trades::{List, ListReqInit, Trade, Trades};
use num_decimal::Num;

const TRADES: &str = r#"{
    "trades": [
      {"t": "2021-02-06T13:04:56.334320128Z", "x": "C", "p": 387.62, "s": 100, "c": [" ", "T"], "i": 52983525029461, "z": "B"},
      {"t": "2021-02-06T13:09:42.325484032Z", "x": "C", "p": 387.69, "s": 100, "c": [" ", "T"], "i": 52983525033813, "z": "B"}
    ],
    "symbol": "SPY",
    "next_page_token": "MjAyMS0wMi0wNlQxMzowOTo0Mlo7MQ=="
}"#;

fn decode_trades(body: &Vec<u8>) -> Result<Trades, serde_json::Error> {
    let v: serde_json::Value = serde_json::from_slice(body)?;
    let trades = v["trades"]
        .as_array()
        .map(|a| {
            a.iter()
                .map(|t| Trade {
                    timestamp: Timestamp::parse(t["t"].as_str().unwrap()).unwrap(),
                    price: Num::from_str(&t["p"].to_string()).unwrap(),
                    size: t["s"].as_u64().unwrap() as usize,
                })
                .collect()
        })
        .unwrap_or_default();
    Ok(Trades {
        trades,
        symbol: v["symbol"].as_str().unwrap_or("").to_string(),
        next_page_token: v["next_page_token"].as_str().map(String::from),
    })
}

fn never_called(_: &Vec<u8>) -> Result<Trades, serde_json::Error> {
    panic!("the body of a failure must not be decoded")
}

#[test]
fn success_yields_decoded_page() {
    let result = List::convert(200, TRADES.as_bytes().to_vec(), decode_trades).into();
    let page = result.unwrap();
    assert_eq!(page.trades.len(), 2);
    assert!(page.trades[0].timestamp.to_rfc3339().starts_with("2021-02-06T13:04:56"));
    assert_eq!(page.trades[0].price, Num::new(38762, 100));
    assert_eq!(page.trades[0].size, 100);
    assert_eq!(page.symbol, "SPY");
    assert!(page.next_page_token.is_some());
}

#[test]
fn limited_trades_page() {
    let start = Timestamp::parse("2018-12-03T21:47:00Z").unwrap();
    let end = Timestamp::parse("2018-12-06T21:47:00Z").unwrap();
    let request = ListReqInit { limit: Some(2), ..Default::default() }.init("AAPL", MarketPrefix::Stocks, start, end);
    let query = List::query(&request).unwrap().unwrap();
    assert!(query.contains("limit=2"));
    let output = List::convert(200, TRADES.as_bytes().to_vec(), decode_trades).into().unwrap();
    assert_eq!(output.trades.len(), 2);
    assert!(output.next_page_token.is_some());
}

#[test]
fn missing_token_is_none() {
    let body = br#"{"trades": [], "symbol": "AAPL", "next_page_token": null}"#.to_vec();
    let page = List::convert(200, body, decode_trades).into().unwrap();
    assert_eq!(page.trades, Vec::new());
    assert_eq!(page.next_page_token, None);
}

#[test]
fn undecodable_success_is_decode_failure() {
    let result = List::convert(200, b"{not json".to_vec(), decode_trades).into();
    assert!(matches!(result, Err(ListError::DecodeFailure(_))));
}

#[test]
fn unknown_symbol_is_invalid_input() {
    let body = br#"{"code":40010001,"message":"invalid symbol: ABC123"}"#.to_vec();
    let result = List::convert(400, body.clone(), never_called).into();
    match result {
        Err(ListError::InvalidInput(b)) => assert_eq!(b, body),
        other => panic!("unexpected result: {other:?}"),
    }
}

#[test]
fn forbidden_is_not_permitted() {
    let body = br#"{"message":"subscription does not permit querying recent SIP data"}"#.to_vec();
    match List::convert(403, body.clone(), never_called).into() {
        Err(ListError::NotPermitted(b)) => assert_eq!(b, body),
        other => panic!("unexpected result: {other:?}"),
    }
}

#[test]
fn universal_statuses() {
    assert!(matches!(
        List::convert(401, Vec::new(), never_called).into(),
        Err(ListError::AuthenticationFailed)
    ));
    assert!(matches!(
        List::convert(429, Vec::new(), never_called).into(),
        Err(ListError::RateLimitExceeded)
    ));
    assert!(matches!(
        convert(401, b"x".to_vec(), never_called).into(),
        Err(ListError::AuthenticationFailed)
    ));
}

#[test]
fn unknown_statuses_are_unexpected() {
    for status in [0u16, 100, 201, 204, 302, 404, 422, 500, 503, u16::MAX] {
        match List::convert(status, b"body".to_vec(), never_called).into() {
            Err(ListError::UnexpectedStatus(s)) => assert_eq!(s, status),
            other => panic!("unexpected result for {status}: {other:?}"),
        }
    }
}

#[test]
fn success_statuses() {
    assert!(is_success(200));
    assert!(!is_success(201));
    assert!(!is_success(400));
    assert!(!is_success(401));
}

#[test]
fn list_table_classifies() {
    let t = list_table();
    assert_eq!(t.classify(200), Class::Success);
    assert_eq!(t.classify(400), Class::Listed(ListStatus::InvalidInput));
    assert_eq!(t.classify(403), Class::Listed(ListStatus::NotPermitted));
    assert_eq!(t.classify(401), Class::AuthenticationFailed);
    assert_eq!(t.classify(429), Class::RateLimitExceeded);
    assert_eq!(t.classify(404), Class::UnexpectedStatus(404));
}

#[test]
fn table_adds_universal_entries() {
    let t = StatusTable::new(vec![200, 204], vec![(404u16, 'n'), (422, 'u')]).unwrap();
    assert_eq!(t.classify(204), Class::Success);
    assert_eq!(t.classify(404), Class::Listed('n'));
    assert_eq!(t.classify(422), Class::Listed('u'));
    assert_eq!(t.classify(401), Class::AuthenticationFailed);
    assert_eq!(t.classify(429), Class::RateLimitExceeded);
    assert_eq!(t.classify(500), Class::UnexpectedStatus(500));
    let empty = StatusTable::<u8>::new(Vec::new(), Vec::new()).unwrap();
    assert_eq!(empty.classify(200), Class::UnexpectedStatus(200));
    assert_eq!(empty.classify(401), Class::AuthenticationFailed);
}

#[test]
fn table_refuses_overrides() {
    assert!(StatusTable::new(vec![200], vec![(401u16, 'a')]).is_none());
    assert!(StatusTable::new(vec![200], vec![(429u16, 'r')]).is_none());
    assert!(StatusTable::<char>::new(vec![401], Vec::new()).is_none());
    assert!(StatusTable::<char>::new(vec![200, 429], Vec::new()).is_none());
    assert!(StatusTable::new(vec![200], vec![(400u16, 'a'), (400, 'b')]).is_none());
    assert!(StatusTable::new(vec![200], vec![(200u16, 'a')]).is_none());
}

#[test]
fn convert_result_into() {
    let r: ConvertResult<u8, ()> = ConvertResult(Ok(3));
    assert_eq!(r.into(), Ok(3));
    let e: ConvertResult<u8, ()> = ConvertResult(Err(()));
    assert_eq!(e.into(), Err(()));
}

#[test]
fn pager_follows_tokens() {
    let start = Timestamp::parse("2020-12-03T21:47:00Z").unwrap();
    let end = Timestamp::parse("2020-12-07T21:47:00Z").unwrap();
    let first = ListReqInit { limit: Some(2), ..Default::default() }.init("AAPL", MarketPrefix::Stocks, start, end);
    let mut pager: Pager<u32> = Pager::new();
    let second = pager.advance(&first, vec![1, 2], Some("t1".to_string())).unwrap();
    assert_eq!(second.page_token.as_deref(), Some("t1"));
    assert_eq!(second.limit, Some(2));
    assert!(!pager.finished);
    let third = pager.advance(&second, vec![3, 4], Some("t2".to_string())).unwrap();
    assert_eq!(third.page_token.as_deref(), Some("t2"));
    assert_eq!(pager.items, vec![1, 2, 3, 4]);
    let done = pager.advance(&third, vec![4, 5], None);
    assert!(done.is_none());
    assert!(pager.finished);
    assert_eq!(pager.items, vec![1, 2, 3, 4, 4, 5]);
}

#[test]
fn pager_passes_repeated_pages() {
    let start = Timestamp::parse("2020-12-03T21:47:00Z").unwrap();
    let first = ListReqInit::default().init("AAPL", MarketPrefix::Stocks, start, start);
    let mut pager: Pager<u32> = Pager::new();
    let next = pager.advance(&first, vec![7, 7], Some("same".to_string())).unwrap();
    let again = pager.advance(&next, vec![7, 7], Some("same".to_string())).unwrap();
    assert_eq!(again.page_token.as_deref(), Some("same"));
    assert_eq!(pager.items, vec![7, 7, 7, 7]);
}

fn never(_: &Vec<u8>) -> Result<quotes::Quotes, serde_json::Error> {
    panic!("the body of a failure must not be decoded")
}

#[test]
fn quotes_endpoint_classifies_like_trades() {
    assert!(matches!(
        quotes::List::convert(401, Vec::new(), never).into(),
        Err(quotes::ListError::AuthenticationFailed)
    ));
    assert!(matches!(
        quotes::List::convert(429, Vec::new(), never).into(),
        Err(quotes::ListError::RateLimitExceeded)
    ));
    assert!(matches!(
        quotes::List::convert(400, b"bad".to_vec(), never).into(),
        Err(quotes::ListError::InvalidInput(_))
    ));
    assert!(matches!(
        quotes::List::convert(418, Vec::new(), never).into(),
        Err(quotes::ListError::UnexpectedStatus(418))
    ));
    let body = br#"{"quotes": [], "symbol": "SPY", "next_page_token": null}"#.to_vec();
    let page = quotes::List::convert(200, body, |_| {
        Ok(quotes::Quotes { quotes: Vec::new(), symbol: "SPY".to_string(), next_page_token: None })
    })
    .into()
    .unwrap();
    assert_eq!(page.symbol, "SPY");
    assert!(page.next_page_token.is_none());
}
