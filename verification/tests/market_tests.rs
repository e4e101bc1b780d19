use rusty_bybit::client::{BybitClient, Method};
use rusty_bybit::market::kline_params;

fn owned(pairs: &[(&str, &str)]) -> Vec<(String, String)> {
    pairs
        .iter()
        .map(|(k, v)| (k.to_string(), v.to_string()))
        .collect()
}

#[test]
fn test_get_kline_basic_params() {
    let params: Vec<(String, String)> = vec![
        ("category".to_string(), "linear".to_string()),
        ("symbol".to_string(), "BTCUSDT".to_string()),
        ("interval".to_string(), "15".to_string()),
    ];

    let query: Vec<(&str, &str)> = params
        .iter()
        .map(|(k, v)| (k.as_str(), v.as_str()))
        .collect();

    assert_eq!(query.len(), 3);
    assert!(query.contains(&("category", "linear")));
    assert!(query.contains(&("symbol", "BTCUSDT")));
    assert!(query.contains(&("interval", "15")));
    assert_eq!(kline_params("linear", "BTCUSDT", "15", None, None), params);
}

#[test]
fn test_get_kline_with_start_only() {
    let mut params: Vec<(String, String)> = vec![
        ("category".to_string(), "linear".to_string()),
        ("symbol".to_string(), "BTCUSDT".to_string()),
        ("interval".to_string(), "15".to_string()),
    ];

    let start = 1670601600000_i64;
    params.push(("start".to_string(), start.to_string()));

    let query: Vec<(&str, &str)> = params
        .iter()
        .map(|(k, v)| (k.as_str(), v.as_str()))
        .collect();

    assert_eq!(query.len(), 4);
    assert!(query.contains(&("category", "linear")));
    assert!(query.contains(&("symbol", "BTCUSDT")));
    assert!(query.contains(&("interval", "15")));
    assert!(query.contains(&("start", "1670601600000")));
    assert_eq!(kline_params("linear", "BTCUSDT", "15", Some(start), None), params);
}

#[test]
fn test_get_kline_with_end_only() {
    let mut params: Vec<(String, String)> = vec![
        ("category".to_string(), "linear".to_string()),
        ("symbol".to_string(), "BTCUSDT".to_string()),
        ("interval".to_string(), "15".to_string()),
    ];

    let end = 1670608800000_i64;
    params.push(("end".to_string(), end.to_string()));

    let query: Vec<(&str, &str)> = params
        .iter()
        .map(|(k, v)| (k.as_str(), v.as_str()))
        .collect();

    assert_eq!(query.len(), 4);
    assert!(query.contains(&("category", "linear")));
    assert!(query.contains(&("symbol", "BTCUSDT")));
    assert!(query.contains(&("interval", "15")));
    assert!(query.contains(&("end", "1670608800000")));
    assert_eq!(kline_params("linear", "BTCUSDT", "15", None, Some(end)), params);
}

#[test]
fn test_get_kline_with_both_start_and_end() {
    let mut params: Vec<(String, String)> = vec![
        ("category".to_string(), "linear".to_string()),
        ("symbol".to_string(), "BTCUSDT".to_string()),
        ("interval".to_string(), "15".to_string()),
    ];

    let start = 1670601600000_i64;
    let end = 1670608800000_i64;

    params.push(("start".to_string(), start.to_string()));
    params.push(("end".to_string(), end.to_string()));

    let query: Vec<(&str, &str)> = params
        .iter()
        .map(|(k, v)| (k.as_str(), v.as_str()))
        .collect();

    assert_eq!(query.len(), 5);
    assert!(query.contains(&("category", "linear")));
    assert!(query.contains(&("symbol", "BTCUSDT")));
    assert!(query.contains(&("interval", "15")));
    assert!(query.contains(&("start", "1670601600000")));
    assert!(query.contains(&("end", "1670608800000")));
    assert_eq!(
        kline_params("linear", "BTCUSDT", "15", Some(start), Some(end)),
        params
    );
}

#[test]
fn kline_params_keep_their_order_and_sign() {
    assert_eq!(
        kline_params("spot", "ETHUSDT", "D", Some(-1), Some(0)),
        owned(&[
            ("category", "spot"),
            ("symbol", "ETHUSDT"),
            ("interval", "D"),
            ("start", "-1"),
            ("end", "0"),
        ])
    );
}

#[test]
fn server_time_request() {
    let request = BybitClient::testnet().get_server_time().unwrap();
    assert_eq!(request.method, Method::Get);
    assert_eq!(request.url, "https://api-testnet.bybit.com/v5/market/time");
    assert_eq!(request.query, None);
    assert_eq!(request.body, None);
    assert!(request.headers.is_empty());
}

#[test]
fn kline_request() {
    let request = BybitClient::mainnet()
        .get_kline("linear", "BTCUSDT", "15", Some(1670601600000), None)
        .unwrap();
    assert_eq!(request.method, Method::Get);
    assert_eq!(request.url, "https://api.bybit.com/v5/market/kline");
    assert_eq!(
        request.query,
        Some(owned(&[
            ("category", "linear"),
            ("symbol", "BTCUSDT"),
            ("interval", "15"),
            ("start", "1670601600000"),
        ]))
    );
    assert_eq!(request.body, None);
}

#[test]
fn tickers_request() {
    let request = BybitClient::testnet().get_tickers("linear").unwrap();
    assert_eq!(request.url, "https://api-testnet.bybit.com/v5/market/tickers");
    assert_eq!(request.query, Some(owned(&[("category", "linear")])));
}

#[test]
fn orderbook_request() {
    let request = BybitClient::testnet()
        .get_orderbook("linear", "BTCUSDT", 5)
        .unwrap();
    assert_eq!(request.url, "https://api-testnet.bybit.com/v5/market/orderbook");
    assert_eq!(
        request.query,
        Some(owned(&[
            ("category", "linear"),
            ("symbol", "BTCUSDT"),
            ("limit", "5"),
        ]))
    );
    let widest = BybitClient::testnet()
        .get_orderbook("spot", "X", u32::MAX)
        .unwrap();
    assert_eq!(
        widest.query,
        Some(owned(&[
            ("category", "spot"),
            ("symbol", "X"),
            ("limit", "4294967295"),
        ]))
    );
}

#[test]
fn instruments_request() {
    let request = BybitClient::testnet().get_instruments("option").unwrap();
    assert_eq!(
        request.url,
        "https://api-testnet.bybit.com/v5/market/instruments-info"
    );
    assert_eq!(request.query, Some(owned(&[("category", "option")])));
}
