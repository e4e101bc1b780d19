//! Trading endpoints: placing, cancelling and querying orders. Each method
//! gives the request of its endpoint, ready to send.

use crate::client::{pair, sends, BybitClient, Method, PreparedRequest};
use crate::error::BybitError;
use crate::json::{
    json_object_text, json_object_to_string, optional_flag, optional_signed, optional_text,
    optional_unsigned, push_optional_flag, push_optional_signed, push_optional_text,
    push_optional_unsigned, push_text, JsonScalar, Members, ScalarView,
};
use crate::types::CreateOrderRequest;
use vstd::prelude::*;
use vstd::string::*;

verus! {

/// A trigger direction as a JSON number.
pub open spec fn widened(direction: Option<i32>) -> Option<i64> {
    match direction {
        Some(d) => Some(d as i64),
        None => None,
    }
}

/// The members of an order as it is sent: category, symbol, side and order
/// type always, then each optional field that is set, under its name on the
/// wire.
pub open spec fn order_members(request: CreateOrderRequest) -> Members {
    seq![
        ("category"@, ScalarView::Text(request.category@)),
        ("symbol"@, ScalarView::Text(request.symbol@)),
        ("side"@, ScalarView::Text(request.side@)),
        ("orderType"@, ScalarView::Text(request.order_type@)),
    ] + optional_text("qty"@, request.qty.deep_view()) + optional_text("price"@, request.price.deep_view()) + optional_text("timeInForce"@, request.time_in_force.deep_view()) + optional_unsigned("positionIdx"@, request.position_idx) + optional_text("orderLinkId"@, request.order_link_id.deep_view()) + optional_text("triggerPrice"@, request.trigger_price.deep_view()) + optional_text("takeProfit"@, request.take_profit.deep_view()) + optional_text("stopLoss"@, request.stop_loss.deep_view()) + optional_flag("reduceOnly"@, request.reduce_only) + optional_flag("closeOnTrigger"@, request.close_on_trigger) + optional_text("trigger_by"@, request.trigger_by.deep_view()) + optional_text("tp_trigger_by"@, request.tp_trigger_by.deep_view()) + optional_text("sl_trigger_by"@, request.sl_trigger_by.deep_view()) + optional_text("market_unit"@, request.market_unit.deep_view()) + optional_text("slippage_tolerance_type"@, request.slippage_tolerance_type.deep_view()) + optional_text("slippage_tolerance"@, request.slippage_tolerance.deep_view()) + optional_signed("trigger_direction"@, widened(request.trigger_direction)) + optional_text("order_filter"@, request.order_filter.deep_view())
}

/// The members of a cancellation of one order.
pub open spec fn cancel_members(category: Seq<char>, order_id: Seq<char>, symbol: Seq<char>) -> Members {
    seq![
        ("category"@, ScalarView::Text(category)),
        ("orderId"@, ScalarView::Text(order_id)),
        ("symbol"@, ScalarView::Text(symbol)),
    ]
}

/// The members of a cancellation of all orders of a symbol.
pub open spec fn cancel_all_members(category: Seq<char>, symbol: Seq<char>) -> Members {
    seq![("category"@, ScalarView::Text(category)), ("symbol"@, ScalarView::Text(symbol))]
}

impl CreateOrderRequest {
    /// The JSON text of this order: the object of [`order_members`].
    pub fn to_json(&self) -> (text: String)
        ensures
            text@ == json_object_text(order_members(*self)),
    {
        let mut members: Vec<(String, JsonScalar)> = Vec::new();
        push_text(&mut members, "category", self.category.as_str());
        push_text(&mut members, "symbol", self.symbol.as_str());
        push_text(&mut members, "side", self.side.as_str());
        push_text(&mut members, "orderType", self.order_type.as_str());
        assert(members.deep_view() =~= seq![
            ("category"@, ScalarView::Text(self.category@)),
            ("symbol"@, ScalarView::Text(self.symbol@)),
            ("side"@, ScalarView::Text(self.side@)),
            ("orderType"@, ScalarView::Text(self.order_type@)),
        ]);
        push_optional_text(&mut members, "qty", &self.qty);
        push_optional_text(&mut members, "price", &self.price);
        push_optional_text(&mut members, "timeInForce", &self.time_in_force);
        push_optional_unsigned(&mut members, "positionIdx", self.position_idx);
        push_optional_text(&mut members, "orderLinkId", &self.order_link_id);
        push_optional_text(&mut members, "triggerPrice", &self.trigger_price);
        push_optional_text(&mut members, "takeProfit", &self.take_profit);
        push_optional_text(&mut members, "stopLoss", &self.stop_loss);
        push_optional_flag(&mut members, "reduceOnly", self.reduce_only);
        push_optional_flag(&mut members, "closeOnTrigger", self.close_on_trigger);
        push_optional_text(&mut members, "trigger_by", &self.trigger_by);
        push_optional_text(&mut members, "tp_trigger_by", &self.tp_trigger_by);
        push_optional_text(&mut members, "sl_trigger_by", &self.sl_trigger_by);
        push_optional_text(&mut members, "market_unit", &self.market_unit);
        push_optional_text(&mut members, "slippage_tolerance_type", &self.slippage_tolerance_type);
        push_optional_text(&mut members, "slippage_tolerance", &self.slippage_tolerance);
        let direction = match self.trigger_direction {
            Some(d) => Some(d as i64),
            None => None,
        };
        push_optional_signed(&mut members, "trigger_direction", direction);
        push_optional_text(&mut members, "order_filter", &self.order_filter);
        json_object_to_string(&members)
    }
}

impl BybitClient {
    /// The request that places `request` as an order.
    pub fn create_order(&self, request: &CreateOrderRequest) -> (res: Result<
        PreparedRequest,
        BybitError,
    >)
        ensures
            sends(
                self@,
                res,
                Method::Post,
                "/v5/order/create"@,
                None,
                Some(json_object_text(order_members(*request))),
            ),
    {
        let body = request.to_json();
        self.post("/v5/order/create", Some(body))
    }

    /// The request that cancels one order.
    pub fn cancel_order(&self, category: &str, order_id: &str, symbol: &str) -> (res: Result<
        PreparedRequest,
        BybitError,
    >)
        ensures
            sends(
                self@,
                res,
                Method::Post,
                "/v5/order/cancel"@,
                None,
                Some(json_object_text(cancel_members(category@, order_id@, symbol@))),
            ),
    {
        let mut members: Vec<(String, JsonScalar)> = Vec::new();
        push_text(&mut members, "category", category);
        push_text(&mut members, "orderId", order_id);
        push_text(&mut members, "symbol", symbol);
        assert(members.deep_view() =~= cancel_members(category@, order_id@, symbol@));
        let body = json_object_to_string(&members);
        self.post("/v5/order/cancel", Some(body))
    }

    /// The request that cancels all orders of a symbol.
    pub fn cancel_all_orders(&self, category: &str, symbol: &str) -> (res: Result<
        PreparedRequest,
        BybitError,
    >)
        ensures
            sends(
                self@,
                res,
                Method::Post,
                "/v5/order/cancel-all"@,
                None,
                Some(json_object_text(cancel_all_members(category@, symbol@))),
            ),
    {
        let mut members: Vec<(String, JsonScalar)> = Vec::new();
        push_text(&mut members, "category", category);
        push_text(&mut members, "symbol", symbol);
        assert(members.deep_view() =~= cancel_all_members(category@, symbol@));
        let body = json_object_to_string(&members);
        self.post("/v5/order/cancel-all", Some(body))
    }

    /// The request for one order by its id.
    pub fn get_order(&self, category: &str, order_id: &str) -> (res: Result<
        PreparedRequest,
        BybitError,
    >)
        ensures
            sends(
                self@,
                res,
                Method::Get,
                "/v5/order/realtime"@,
                Some(seq![("category"@, category@), ("orderId"@, order_id@)]),
                None,
            ),
    {
        let mut query: Vec<(String, String)> = Vec::new();
        query.push(pair("category", category));
        query.push(pair("orderId", order_id));
        assert(query.deep_view() =~= seq![("category"@, category@), ("orderId"@, order_id@)]);
        self.get("/v5/order/realtime", Some(query))
    }

    /// The request for the open orders of a category.
    pub fn get_open_orders(&self, category: &str) -> (res: Result<PreparedRequest, BybitError>)
        ensures
            sends(
                self@,
                res,
                Method::Get,
                "/v5/order/realtime"@,
                Some(seq![("category"@, category@)]),
                None,
            ),
    {
        let mut query: Vec<(String, String)> = Vec::new();
        query.push(pair("category", category));
        assert(query.deep_view() =~= seq![("category"@, category@)]);
        self.get("/v5/order/realtime", Some(query))
    }
}

} // verus!
