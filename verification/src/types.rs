//! The data shapes of the API: the response envelope, the results of the
//! endpoints, and the order request with its builder.

use crate::error::BybitError;
use vstd::prelude::*;
use vstd::string::*;

verus! {

#[verifier::external_type_specification]
#[verifier::external_body]
pub struct ExJsonValue(serde_json::Value);

/// Bybit server time response
#[derive(Debug, Clone)]
pub struct ServerTime {
    pub time_second: String,
    pub time_nano: String,
}

/// Empty result for API calls that don't return data
#[derive(Debug, Clone)]
pub struct EmptyResult;

/// Product category for Bybit API endpoints
#[derive(Debug, Clone, Copy, PartialEq, Eq, Structural)]
pub enum Category {
    Linear,
    Inverse,
    Spot,
    Option,
}

/// The envelope around every response. `result` means something only where
/// `ret_code` is zero. `ret_ext_info` is carried as it came and never read.
#[derive(Debug)]
pub struct ApiResponse<T> {
    pub ret_code: i32,
    pub ret_msg: String,
    pub result: T,
    pub ret_ext_info: serde_json::Value,
    pub time: i64,
}

impl<T> ApiResponse<T> {
    /// What a call returns for this envelope: the result where the code is
    /// zero, else the API error with the envelope's code and message.
    pub open spec fn outcome(self) -> Result<T, BybitError> {
        if self.ret_code == 0 {
            Ok(self.result)
        } else {
            Err(BybitError::ApiError { ret_code: self.ret_code, ret_msg: self.ret_msg })
        }
    }

    /// Opens the envelope: see [`ApiResponse::outcome`].
    pub fn into_result(self) -> (res: Result<T, BybitError>)
        ensures
            res == self.outcome(),
    {
        if self.ret_code != 0 {
            return Err(BybitError::ApiError { ret_code: self.ret_code, ret_msg: self.ret_msg });
        }
        Ok(self.result)
    }
}

#[derive(Debug, Clone)]
pub struct OrderBook {
    pub b: Vec<(String, String)>,
    pub a: Vec<(String, String)>,
    pub ts: i64,
    pub u: i64,
}

#[derive(Debug, Clone)]
pub struct InstrumentInfo {
    pub symbol: String,
    pub contract_type: String,
    pub status: String,
    pub base_coin: String,
    pub quote_coin: String,
    pub settle_coin: String,
    pub price_scale: String,
}

#[derive(Debug, Clone)]
pub struct Ticker {
    pub symbol: String,
    pub last_price: String,
    pub index_price: String,
    pub mark_price: String,
    pub bid1_price: String,
    pub bid1_size: String,
    pub ask1_price: String,
    pub ask1_size: String,
}

/// Wrapper for ticker list response
#[derive(Debug, Clone)]
pub struct TickerList {
    pub list: Vec<Ticker>,
    pub next_page_cursor: Option<String>,
}

/// Wrapper for instrument list response
#[derive(Debug, Clone)]
pub struct InstrumentList {
    pub list: Vec<InstrumentInfo>,
    pub next_page_cursor: Option<String>,
}

/// Wrapper for wallet balance response
#[derive(Debug, Clone)]
pub struct WalletBalance {
    pub list: Vec<AccountBalance>,
}

#[derive(Debug, Clone)]
pub struct AccountBalance {
    pub account_type: String,
    pub account_im_rate: String,
    pub account_mm_rate: String,
    pub total_equity: String,
    pub total_wallet_balance: String,
    pub total_margin_balance: String,
    pub total_available_balance: String,
    pub total_perp_upl: String,
    pub total_initial_margin: String,
    pub total_maintenance_margin: String,
    pub coin: Vec<CoinBalance>,
}

#[derive(Debug, Clone)]
pub struct CoinBalance {
    pub coin: String,
    pub wallet_balance: String,
    pub transfer_balance: String,
}

/// Wrapper for position list response
#[derive(Debug, Clone)]
pub struct PositionList {
    pub list: Vec<Position>,
    pub category: String,
    pub next_page_cursor: Option<String>,
}

#[derive(Debug, Clone)]
pub struct Position {
    pub symbol: String,
    pub position_idx: u64,
    pub position_status: String,
    pub side: String,
    pub size: String,
    pub position_value: String,
    pub unrealised_pnl: String,
}

/// Order side: Buy or Sell
#[derive(Debug, Clone, Copy, PartialEq, Eq, Structural)]
pub enum Side {
    Buy,
    Sell,
}

/// Order type: Market or Limit
#[derive(Debug, Clone, Copy, PartialEq, Eq, Structural)]
pub enum OrderType {
    Market,
    Limit,
}

/// Time in force strategy for orders
#[derive(Debug, Clone, Copy, PartialEq, Eq, Structural)]
pub enum TimeInForce {
    GTC,
    IOC,
    FOK,
    PostOnly,
    RPI,
}

/// Order status
#[derive(Debug, Clone, Copy, PartialEq, Eq, Structural)]
pub enum OrderStatus {
    New,
    PartiallyFilled,
    Filled,
    Cancelled,
    Rejected,
}

/// Wrapper for order list response
#[derive(Debug, Clone)]
pub struct OrderList {
    pub list: Vec<Order>,
    pub next_page_cursor: Option<String>,
    pub category: String,
}

#[derive(Debug, Clone)]
pub struct Order {
    pub order_id: String,
    pub order_link_id: String,
    pub symbol: String,
    pub side: String,
    pub order_type: String,
    pub price: String,
    pub qty: String,
    pub time_in_force: String,
    pub create_type: String,
    pub cancel_type: String,
    pub status: String,
    pub leaves_qty: String,
    pub cum_exec_qty: String,
    pub avg_price: String,
    pub created_time: String,
    pub updated_time: String,
    pub position_idx: u64,
    pub trigger_price: Option<String>,
    pub take_profit: Option<String>,
    pub stop_loss: Option<String>,
    pub reduce_only: Option<bool>,
    pub close_on_trigger: Option<bool>,
}

#[derive(Debug, Clone)]
pub struct CreateOrderResponse {
    pub order_id: String,
    pub order_link_id: String,
}

/// An order to place. The first four fields are always sent; an optional
/// field is sent only where it is set.
#[derive(Debug, Clone)]
pub struct CreateOrderRequest {
    pub category: String,
    pub symbol: String,
    pub side: String,
    pub order_type: String,
    pub qty: Option<String>,
    pub price: Option<String>,
    pub time_in_force: Option<String>,
    pub position_idx: Option<u64>,
    pub order_link_id: Option<String>,
    pub trigger_price: Option<String>,
    pub take_profit: Option<String>,
    pub stop_loss: Option<String>,
    pub reduce_only: Option<bool>,
    pub close_on_trigger: Option<bool>,
    pub trigger_by: Option<String>,
    pub tp_trigger_by: Option<String>,
    pub sl_trigger_by: Option<String>,
    pub market_unit: Option<String>,
    pub slippage_tolerance_type: Option<String>,
    pub slippage_tolerance: Option<String>,
    pub trigger_direction: Option<i32>,
    pub order_filter: Option<String>,
}

impl Default for CreateOrderRequest {
    fn default() -> (request: Self)
        ensures
            request.category@.len() == 0,
            request.symbol@.len() == 0,
            request.side@.len() == 0,
            request.order_type@.len() == 0,
            request.no_options(),
    {
        CreateOrderRequest {
            category: String::new(),
            symbol: String::new(),
            side: String::new(),
            order_type: String::new(),
            qty: None,
            price: None,
            time_in_force: None,
            position_idx: None,
            order_link_id: None,
            trigger_price: None,
            take_profit: None,
            stop_loss: None,
            reduce_only: None,
            close_on_trigger: None,
            trigger_by: None,
            tp_trigger_by: None,
            sl_trigger_by: None,
            market_unit: None,
            slippage_tolerance_type: None,
            slippage_tolerance: None,
            trigger_direction: None,
            order_filter: None,
        }
    }
}

impl CreateOrderRequest {
    /// Whether no optional field is set.
    pub open spec fn no_options(self) -> bool {
        &&& self.qty is None
        &&& self.price is None
        &&& self.time_in_force is None
        &&& self.position_idx is None
        &&& self.order_link_id is None
        &&& self.trigger_price is None
        &&& self.take_profit is None
        &&& self.stop_loss is None
        &&& self.reduce_only is None
        &&& self.close_on_trigger is None
        &&& self.trigger_by is None
        &&& self.tp_trigger_by is None
        &&& self.sl_trigger_by is None
        &&& self.market_unit is None
        &&& self.slippage_tolerance_type is None
        &&& self.slippage_tolerance is None
        &&& self.trigger_direction is None
        &&& self.order_filter is None
    }

    /// A builder with no field set.
    pub fn builder() -> (builder: CreateOrderRequestBuilder)
        ensures
            builder.is_blank(),
    {
        CreateOrderRequestBuilder::default()
    }
}

/// Builder for CreateOrderRequest with fluent API. Fields are collected one
/// by one; the required ones are asked for once, in `build`.
#[derive(Debug)]
pub struct CreateOrderRequestBuilder {
    pub category: Option<String>,
    pub symbol: Option<String>,
    pub side: Option<String>,
    pub order_type: Option<String>,
    pub qty: Option<String>,
    pub price: Option<String>,
    pub time_in_force: Option<String>,
    pub position_idx: Option<u64>,
    pub order_link_id: Option<String>,
    pub trigger_price: Option<String>,
    pub take_profit: Option<String>,
    pub stop_loss: Option<String>,
    pub reduce_only: Option<bool>,
    pub close_on_trigger: Option<bool>,
    pub trigger_by: Option<String>,
    pub tp_trigger_by: Option<String>,
    pub sl_trigger_by: Option<String>,
    pub market_unit: Option<String>,
    pub slippage_tolerance_type: Option<String>,
    pub slippage_tolerance: Option<String>,
    pub trigger_direction: Option<i32>,
    pub order_filter: Option<String>,
}

impl Default for CreateOrderRequestBuilder {
    fn default() -> (builder: Self)
        ensures
            builder.is_blank(),
    {
        CreateOrderRequestBuilder {
            category: None,
            symbol: None,
            side: None,
            order_type: None,
            qty: None,
            price: None,
            time_in_force: None,
            position_idx: None,
            order_link_id: None,
            trigger_price: None,
            take_profit: None,
            stop_loss: None,
            reduce_only: None,
            close_on_trigger: None,
            trigger_by: None,
            tp_trigger_by: None,
            sl_trigger_by: None,
            market_unit: None,
            slippage_tolerance_type: None,
            slippage_tolerance: None,
            trigger_direction: None,
            order_filter: None,
        }
    }
}

/// The default product category of an order.
pub open spec fn default_category() -> Seq<char> {
    "linear"@
}

impl CreateOrderRequestBuilder {
    /// Whether no field is set.
    pub open spec fn is_blank(self) -> bool {
        &&& self.category is None
        &&& self.symbol is None
        &&& self.side is None
        &&& self.order_type is None
        &&& self.qty is None
        &&& self.price is None
        &&& self.time_in_force is None
        &&& self.position_idx is None
        &&& self.order_link_id is None
        &&& self.trigger_price is None
        &&& self.take_profit is None
        &&& self.stop_loss is None
        &&& self.reduce_only is None
        &&& self.close_on_trigger is None
        &&& self.trigger_by is None
        &&& self.tp_trigger_by is None
        &&& self.sl_trigger_by is None
        &&& self.market_unit is None
        &&& self.slippage_tolerance_type is None
        &&& self.slippage_tolerance is None
        &&& self.trigger_direction is None
        &&& self.order_filter is None
    }

    /// Whether the fields that `build` asks for are set.
    pub open spec fn is_complete(self) -> bool {
        self.symbol is Some && self.side is Some && self.order_type is Some
    }

    /// Tells whether `build` may be called: symbol, side and order type are set.
    pub fn can_build(&self) -> (complete: bool)
        ensures
            complete == self.is_complete(),
    {
        self.symbol.is_some() && self.side.is_some() && self.order_type.is_some()
    }

    pub fn category(self, category: &str) -> (builder: Self)
        ensures
            builder.category matches Some(value) && value@ == category@,
            builder == (Self { category: builder.category, ..self }),
    {
        Self { category: Some(String::from_str(category)), ..self }
    }

    pub fn symbol(self, symbol: &str) -> (builder: Self)
        ensures
            builder.symbol matches Some(value) && value@ == symbol@,
            builder == (Self { symbol: builder.symbol, ..self }),
    {
        Self { symbol: Some(String::from_str(symbol)), ..self }
    }

    pub fn side(self, side: &str) -> (builder: Self)
        ensures
            builder.side matches Some(value) && value@ == side@,
            builder == (Self { side: builder.side, ..self }),
    {
        Self { side: Some(String::from_str(side)), ..self }
    }

    pub fn order_type(self, order_type: &str) -> (builder: Self)
        ensures
            builder.order_type matches Some(value) && value@ == order_type@,
            builder == (Self { order_type: builder.order_type, ..self }),
    {
        Self { order_type: Some(String::from_str(order_type)), ..self }
    }

    pub fn qty(self, qty: &str) -> (builder: Self)
        ensures
            builder.qty matches Some(value) && value@ == qty@,
            builder == (Self { qty: builder.qty, ..self }),
    {
        Self { qty: Some(String::from_str(qty)), ..self }
    }

    pub fn price(self, price: &str) -> (builder: Self)
        ensures
            builder.price matches Some(value) && value@ == price@,
            builder == (Self { price: builder.price, ..self }),
    {
        Self { price: Some(String::from_str(price)), ..self }
    }

    pub fn time_in_force(self, time_in_force: &str) -> (builder: Self)
        ensures
            builder.time_in_force matches Some(value) && value@ == time_in_force@,
            builder == (Self { time_in_force: builder.time_in_force, ..self }),
    {
        Self { time_in_force: Some(String::from_str(time_in_force)), ..self }
    }

    pub fn position_idx(self, position_idx: u64) -> (builder: Self)
        ensures
            builder == (Self { position_idx: Some(position_idx), ..self }),
    {
        Self { position_idx: Some(position_idx), ..self }
    }

    pub fn order_link_id(self, order_link_id: &str) -> (builder: Self)
        ensures
            builder.order_link_id matches Some(value) && value@ == order_link_id@,
            builder == (Self { order_link_id: builder.order_link_id, ..self }),
    {
        Self { order_link_id: Some(String::from_str(order_link_id)), ..self }
    }

    pub fn trigger_price(self, trigger_price: &str) -> (builder: Self)
        ensures
            builder.trigger_price matches Some(value) && value@ == trigger_price@,
            builder == (Self { trigger_price: builder.trigger_price, ..self }),
    {
        Self { trigger_price: Some(String::from_str(trigger_price)), ..self }
    }

    pub fn take_profit(self, take_profit: &str) -> (builder: Self)
        ensures
            builder.take_profit matches Some(value) && value@ == take_profit@,
            builder == (Self { take_profit: builder.take_profit, ..self }),
    {
        Self { take_profit: Some(String::from_str(take_profit)), ..self }
    }

    pub fn stop_loss(self, stop_loss: &str) -> (builder: Self)
        ensures
            builder.stop_loss matches Some(value) && value@ == stop_loss@,
            builder == (Self { stop_loss: builder.stop_loss, ..self }),
    {
        Self { stop_loss: Some(String::from_str(stop_loss)), ..self }
    }

    pub fn reduce_only(self, reduce_only: bool) -> (builder: Self)
        ensures
            builder == (Self { reduce_only: Some(reduce_only), ..self }),
    {
        Self { reduce_only: Some(reduce_only), ..self }
    }

    pub fn close_on_trigger(self, close_on_trigger: bool) -> (builder: Self)
        ensures
            builder == (Self { close_on_trigger: Some(close_on_trigger), ..self }),
    {
        Self { close_on_trigger: Some(close_on_trigger), ..self }
    }

    pub fn trigger_by(self, trigger_by: &str) -> (builder: Self)
        ensures
            builder.trigger_by matches Some(value) && value@ == trigger_by@,
            builder == (Self { trigger_by: builder.trigger_by, ..self }),
    {
        Self { trigger_by: Some(String::from_str(trigger_by)), ..self }
    }

    pub fn tp_trigger_by(self, tp_trigger_by: &str) -> (builder: Self)
        ensures
            builder.tp_trigger_by matches Some(value) && value@ == tp_trigger_by@,
            builder == (Self { tp_trigger_by: builder.tp_trigger_by, ..self }),
    {
        Self { tp_trigger_by: Some(String::from_str(tp_trigger_by)), ..self }
    }

    pub fn sl_trigger_by(self, sl_trigger_by: &str) -> (builder: Self)
        ensures
            builder.sl_trigger_by matches Some(value) && value@ == sl_trigger_by@,
            builder == (Self { sl_trigger_by: builder.sl_trigger_by, ..self }),
    {
        Self { sl_trigger_by: Some(String::from_str(sl_trigger_by)), ..self }
    }

    pub fn market_unit(self, market_unit: &str) -> (builder: Self)
        ensures
            builder.market_unit matches Some(value) && value@ == market_unit@,
            builder == (Self { market_unit: builder.market_unit, ..self }),
    {
        Self { market_unit: Some(String::from_str(market_unit)), ..self }
    }

    pub fn slippage_tolerance_type(self, slippage_tolerance_type: &str) -> (builder: Self)
        ensures
            builder.slippage_tolerance_type matches Some(value) && value@ == slippage_tolerance_type@,
            builder == (Self { slippage_tolerance_type: builder.slippage_tolerance_type, ..self }),
    {
        Self { slippage_tolerance_type: Some(String::from_str(slippage_tolerance_type)), ..self }
    }

    pub fn slippage_tolerance(self, slippage_tolerance: &str) -> (builder: Self)
        ensures
            builder.slippage_tolerance matches Some(value) && value@ == slippage_tolerance@,
            builder == (Self { slippage_tolerance: builder.slippage_tolerance, ..self }),
    {
        Self { slippage_tolerance: Some(String::from_str(slippage_tolerance)), ..self }
    }

    pub fn trigger_direction(self, trigger_direction: i32) -> (builder: Self)
        ensures
            builder == (Self { trigger_direction: Some(trigger_direction), ..self }),
    {
        Self { trigger_direction: Some(trigger_direction), ..self }
    }

    pub fn order_filter(self, order_filter: &str) -> (builder: Self)
        ensures
            builder.order_filter matches Some(value) && value@ == order_filter@,
            builder == (Self { order_filter: builder.order_filter, ..self }),
    {
        Self { order_filter: Some(String::from_str(order_filter)), ..self }
    }

    /// The finished request. Symbol, side and order type must have been set;
    /// a category that was not set is `linear`. Every optional field is as it
    /// was collected.
    pub fn build(self) -> (request: CreateOrderRequest)
        requires
            self.is_complete(),
        ensures
            match self.category {
                Some(category) => request.category == category,
                None => request.category@ == default_category(),
            },
            request == (CreateOrderRequest {
                category: request.category,
                symbol: self.symbol->0,
                side: self.side->0,
                order_type: self.order_type->0,
                qty: self.qty,
                price: self.price,
                time_in_force: self.time_in_force,
                position_idx: self.position_idx,
                order_link_id: self.order_link_id,
                trigger_price: self.trigger_price,
                take_profit: self.take_profit,
                stop_loss: self.stop_loss,
                reduce_only: self.reduce_only,
                close_on_trigger: self.close_on_trigger,
                trigger_by: self.trigger_by,
                tp_trigger_by: self.tp_trigger_by,
                sl_trigger_by: self.sl_trigger_by,
                market_unit: self.market_unit,
                slippage_tolerance_type: self.slippage_tolerance_type,
                slippage_tolerance: self.slippage_tolerance,
                trigger_direction: self.trigger_direction,
                order_filter: self.order_filter,
            }),
    {
        let category = match self.category {
            Some(category) => category,
            None => String::from_str("linear"),
        };
        CreateOrderRequest {
            category,
            symbol: self.symbol.expect("symbol is required"),
            side: self.side.expect("side is required"),
            order_type: self.order_type.expect("order_type is required"),
            qty: self.qty,
            price: self.price,
            time_in_force: self.time_in_force,
            position_idx: self.position_idx,
            order_link_id: self.order_link_id,
            trigger_price: self.trigger_price,
            take_profit: self.take_profit,
            stop_loss: self.stop_loss,
            reduce_only: self.reduce_only,
            close_on_trigger: self.close_on_trigger,
            trigger_by: self.trigger_by,
            tp_trigger_by: self.tp_trigger_by,
            sl_trigger_by: self.sl_trigger_by,
            market_unit: self.market_unit,
            slippage_tolerance_type: self.slippage_tolerance_type,
            slippage_tolerance: self.slippage_tolerance,
            trigger_direction: self.trigger_direction,
            order_filter: self.order_filter,
        }
    }
}

} // verus!
