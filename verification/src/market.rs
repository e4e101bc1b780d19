//! Market data endpoints: server time, klines, tickers, order book and
//! instruments. Each method gives the request of its endpoint, ready to send.

use crate::client::{pair, sends, BybitClient, Method, Pairs, PreparedRequest};
use crate::error::BybitError;
use crate::text::{decimal_i64, decimal_text, decimal_u64};
use vstd::prelude::*;
use vstd::string::*;

verus! {

/// The query of a kline call: category, symbol and interval, then the start
/// and the end of the range in milliseconds, each only where it is given.
pub open spec fn kline_query(
    category: Seq<char>,
    symbol: Seq<char>,
    interval: Seq<char>,
    start: Option<i64>,
    end: Option<i64>,
) -> Pairs {
    seq![("category"@, category), ("symbol"@, symbol), ("interval"@, interval)] + (match start {
        Some(s) => seq![("start"@, decimal_text(s as int))],
        None => Seq::empty(),
    }) + (match end {
        Some(e) => seq![("end"@, decimal_text(e as int))],
        None => Seq::empty(),
    })
}

/// The parameters of a kline call: see [`kline_query`].
pub fn kline_params(
    category: &str,
    symbol: &str,
    interval: &str,
    start: Option<i64>,
    end: Option<i64>,
) -> (params: Vec<(String, String)>)
    ensures
        params.deep_view() == kline_query(category@, symbol@, interval@, start, end),
{
    let mut params: Vec<(String, String)> = Vec::new();
    params.push(pair("category", category));
    params.push(pair("symbol", symbol));
    params.push(pair("interval", interval));
    if let Some(s) = start {
        let text = decimal_i64(s);
        params.push(pair("start", text.as_str()));
    }
    if let Some(e) = end {
        let text = decimal_i64(e);
        params.push(pair("end", text.as_str()));
    }
    assert(params.deep_view() =~= kline_query(category@, symbol@, interval@, start, end));
    params
}

impl BybitClient {
    /// The request for the server time.
    pub fn get_server_time(&self) -> (res: Result<PreparedRequest, BybitError>)
        ensures
            sends(self@, res, Method::Get, "/v5/market/time"@, None, None),
    {
        self.get("/v5/market/time", None)
    }

    /// The request for klines of a symbol at an interval, within the given range.
    pub fn get_kline(
        &self,
        category: &str,
        symbol: &str,
        interval: &str,
        start: Option<i64>,
        end: Option<i64>,
    ) -> (res: Result<PreparedRequest, BybitError>)
        ensures
            sends(
                self@,
                res,
                Method::Get,
                "/v5/market/kline"@,
                Some(kline_query(category@, symbol@, interval@, start, end)),
                None,
            ),
    {
        let query = kline_params(category, symbol, interval, start, end);
        self.get("/v5/market/kline", Some(query))
    }

    /// The request for the tickers of a category.
    pub fn get_tickers(&self, category: &str) -> (res: Result<PreparedRequest, BybitError>)
        ensures
            sends(
                self@,
                res,
                Method::Get,
                "/v5/market/tickers"@,
                Some(seq![("category"@, category@)]),
                None,
            ),
    {
        let mut query: Vec<(String, String)> = Vec::new();
        query.push(pair("category", category));
        assert(query.deep_view() =~= seq![("category"@, category@)]);
        self.get("/v5/market/tickers", Some(query))
    }

    /// The request for the order book of a symbol, to the given depth.
    pub fn get_orderbook(&self, category: &str, symbol: &str, limit: u32) -> (res: Result<
        PreparedRequest,
        BybitError,
    >)
        ensures
            sends(
                self@,
                res,
                Method::Get,
                "/v5/market/orderbook"@,
                Some(
                    seq![
                        ("category"@, category@),
                        ("symbol"@, symbol@),
                        ("limit"@, decimal_text(limit as int)),
                    ],
                ),
                None,
            ),
    {
        let limit_str = decimal_u64(limit as u64);
        let mut query: Vec<(String, String)> = Vec::new();
        query.push(pair("category", category));
        query.push(pair("symbol", symbol));
        query.push(pair("limit", limit_str.as_str()));
        assert(query.deep_view() =~= seq![
            ("category"@, category@),
            ("symbol"@, symbol@),
            ("limit"@, decimal_text(limit as int)),
        ]);
        self.get("/v5/market/orderbook", Some(query))
    }

    /// The request for the instruments of a category.
    pub fn get_instruments(&self, category: &str) -> (res: Result<PreparedRequest, BybitError>)
        ensures
            sends(
                self@,
                res,
                Method::Get,
                "/v5/market/instruments-info"@,
                Some(seq![("category"@, category@)]),
                None,
            ),
    {
        let mut query: Vec<(String, String)> = Vec::new();
        query.push(pair("category", category));
        assert(query.deep_view() =~= seq![("category"@, category@)]);
        self.get("/v5/market/instruments-info", Some(query))
    }
}

} // verus!
