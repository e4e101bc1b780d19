//! Account endpoints: wallet balance, positions, leverage, executions and
//! closed profit and loss. Each method gives the request of its endpoint,
//! ready to send.

use crate::client::{pair, sends, BybitClient, Method, Pairs, PreparedRequest};
use crate::error::BybitError;
use crate::json::{json_object_text, json_object_to_string, push_text, JsonScalar, Members, ScalarView};
use vstd::prelude::*;
use vstd::string::*;

verus! {

/// The query of a call by category and, where one is given, symbol.
pub open spec fn category_symbol_query(category: Seq<char>, symbol: Option<Seq<char>>) -> Pairs {
    seq![("category"@, category)] + (match symbol {
        Some(s) => seq![("symbol"@, s)],
        None => Seq::empty(),
    })
}

/// The query of a wallet balance call: the account type where one is given,
/// else no query at all.
pub open spec fn wallet_query(account_type: Option<Seq<char>>) -> Option<Pairs> {
    match account_type {
        Some(t) => Some(seq![("accountType"@, t)]),
        None => None,
    }
}

/// The members of a leverage setting.
pub open spec fn leverage_members(
    category: Seq<char>,
    symbol: Seq<char>,
    buy_leverage: Seq<char>,
    sell_leverage: Seq<char>,
) -> Members {
    seq![
        ("category"@, ScalarView::Text(category)),
        ("symbol"@, ScalarView::Text(symbol)),
        ("buyLeverage"@, ScalarView::Text(buy_leverage)),
        ("sellLeverage"@, ScalarView::Text(sell_leverage)),
    ]
}

/// The parameters of a call by category and optional symbol: see
/// [`category_symbol_query`].
pub fn category_symbol_params(category: &str, symbol: Option<&str>) -> (params: Vec<
    (String, String),
>)
    ensures
        params.deep_view() == category_symbol_query(category@, symbol.deep_view()),
{
    let mut params: Vec<(String, String)> = Vec::new();
    params.push(pair("category", category));
    if let Some(s) = symbol {
        params.push(pair("symbol", s));
    }
    assert(params.deep_view() =~= category_symbol_query(category@, symbol.deep_view()));
    params
}

impl BybitClient {
    /// The request for the wallet balance, of one account type or of all.
    pub fn get_wallet_balance(&self, account_type: Option<&str>) -> (res: Result<
        PreparedRequest,
        BybitError,
    >)
        ensures
            sends(
                self@,
                res,
                Method::Get,
                "/v5/account/wallet-balance"@,
                wallet_query(account_type.deep_view()),
                None,
            ),
    {
        let query = match account_type {
            Some(t) => {
                let mut params: Vec<(String, String)> = Vec::new();
                params.push(pair("accountType", t));
                assert(params.deep_view() =~= seq![("accountType"@, t@)]);
                Some(params)
            },
            None => None,
        };
        self.get("/v5/account/wallet-balance", query)
    }

    /// The request for the positions of a category, of one symbol or of all.
    pub fn get_position(&self, category: &str, symbol: Option<&str>) -> (res: Result<
        PreparedRequest,
        BybitError,
    >)
        ensures
            sends(
                self@,
                res,
                Method::Get,
                "/v5/position/list"@,
                Some(category_symbol_query(category@, symbol.deep_view())),
                None,
            ),
    {
        let query = category_symbol_params(category, symbol);
        self.get("/v5/position/list", Some(query))
    }

    /// The request that sets the leverage of a symbol for buying and for selling.
    pub fn set_leverage(
        &self,
        category: &str,
        symbol: &str,
        buy_leverage: &str,
        sell_leverage: &str,
    ) -> (res: Result<PreparedRequest, BybitError>)
        ensures
            sends(
                self@,
                res,
                Method::Post,
                "/v5/position/set-leverage"@,
                None,
                Some(
                    json_object_text(
                        leverage_members(category@, symbol@, buy_leverage@, sell_leverage@),
                    ),
                ),
            ),
    {
        let mut members: Vec<(String, JsonScalar)> = Vec::new();
        push_text(&mut members, "category", category);
        push_text(&mut members, "symbol", symbol);
        push_text(&mut members, "buyLeverage", buy_leverage);
        push_text(&mut members, "sellLeverage", sell_leverage);
        assert(members.deep_view() =~= leverage_members(
            category@,
            symbol@,
            buy_leverage@,
            sell_leverage@,
        ));
        let body = json_object_to_string(&members);
        self.post("/v5/position/set-leverage", Some(body))
    }

    /// The request for the executions of a category, of one symbol or of all.
    pub fn get_execution_list(&self, category: &str, symbol: Option<&str>) -> (res: Result<
        PreparedRequest,
        BybitError,
    >)
        ensures
            sends(
                self@,
                res,
                Method::Get,
                "/v5/execution/list"@,
                Some(category_symbol_query(category@, symbol.deep_view())),
                None,
            ),
    {
        let query = category_symbol_params(category, symbol);
        self.get("/v5/execution/list", Some(query))
    }

    /// The request for the closed profit and loss of a category, of one symbol or of all.
    pub fn get_closed_pnl(&self, category: &str, symbol: Option<&str>) -> (res: Result<
        PreparedRequest,
        BybitError,
    >)
        ensures
            sends(
                self@,
                res,
                Method::Get,
                "/v5/position/closed-pnl"@,
                Some(category_symbol_query(category@, symbol.deep_view())),
                None,
            ),
    {
        let query = category_symbol_params(category, symbol);
        self.get("/v5/position/closed-pnl", Some(query))
    }
}

} // verus!
