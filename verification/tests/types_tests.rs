use rusty_bybit::types::{
    Category, CreateOrderRequest, CreateOrderRequestBuilder, CreateOrderResponse, OrderStatus,
    OrderType, Side, TimeInForce,
};

#[test]
fn test_create_order_request_default() {
    let request = CreateOrderRequest {
        category: "linear".to_string(),
        symbol: "BTCUSDT".to_string(),
        side: "Buy".to_string(),
        order_type: "Limit".to_string(),
        ..Default::default()
    };

    assert_eq!(request.category, "linear");
    assert_eq!(request.symbol, "BTCUSDT");
    assert_eq!(request.side, "Buy");
    assert_eq!(request.order_type, "Limit");
    assert!(request.qty.is_none());
    assert!(request.price.is_none());
}

#[test]
fn test_create_order_request_with_all_fields() {
    let request = CreateOrderRequest {
        category: "linear".to_string(),
        symbol: "BTCUSDT".to_string(),
        side: "Buy".to_string(),
        order_type: "Limit".to_string(),
        qty: Some("0.001".to_string()),
        price: Some("28000".to_string()),
        time_in_force: Some("GTC".to_string()),
        reduce_only: Some(false),
        take_profit: Some("30000".to_string()),
        stop_loss: Some("27000".to_string()),
        ..Default::default()
    };

    let json = request.to_json();
    assert!(json.contains("\"category\":\"linear\""));
    assert!(json.contains("\"symbol\":\"BTCUSDT\""));
    assert!(json.contains("\"qty\":\"0.001\""));
    assert!(json.contains("\"price\":\"28000\""));
    assert!(json.contains("\"reduceOnly\":false"));
}

#[test]
fn test_create_order_request_builder_basic() {
    let request = CreateOrderRequest::builder()
        .category("linear")
        .symbol("BTCUSDT")
        .side("Buy")
        .order_type("Limit")
        .build();

    assert_eq!(request.category, "linear");
    assert_eq!(request.symbol, "BTCUSDT");
    assert_eq!(request.side, "Buy");
    assert_eq!(request.order_type, "Limit");
}

#[test]
#[should_panic(expected = "symbol is required")]
fn test_create_order_request_builder_missing_symbol() {
    let _ = CreateOrderRequest::builder()
        .category("linear")
        .side("Buy")
        .order_type("Limit")
        .build();
}

#[test]
#[should_panic(expected = "side is required")]
fn test_create_order_request_builder_missing_side() {
    let _ = CreateOrderRequest::builder()
        .category("linear")
        .symbol("BTCUSDT")
        .order_type("Limit")
        .build();
}

#[test]
#[should_panic(expected = "order_type is required")]
fn test_create_order_request_builder_missing_order_type() {
    let _ = CreateOrderRequest::builder()
        .category("linear")
        .symbol("BTCUSDT")
        .side("Buy")
        .build();
}

#[test]
fn test_create_order_request_builder_with_optional_fields() {
    let request = CreateOrderRequest::builder()
        .category("linear")
        .symbol("BTCUSDT")
        .side("Buy")
        .order_type("Limit")
        .qty("0.001")
        .price("28000")
        .time_in_force("GTC")
        .position_idx(1)
        .order_link_id("my_order")
        .take_profit("30000")
        .stop_loss("27000")
        .reduce_only(false)
        .close_on_trigger(false)
        .build();

    assert_eq!(request.qty, Some("0.001".to_string()));
    assert_eq!(request.price, Some("28000".to_string()));
    assert_eq!(request.time_in_force, Some("GTC".to_string()));
    assert_eq!(request.position_idx, Some(1));
    assert_eq!(request.order_link_id, Some("my_order".to_string()));
    assert_eq!(request.take_profit, Some("30000".to_string()));
    assert_eq!(request.stop_loss, Some("27000".to_string()));
    assert_eq!(request.reduce_only, Some(false));
    assert_eq!(request.close_on_trigger, Some(false));
}

#[test]
fn test_create_order_request_builder_default_category() {
    let request = CreateOrderRequest::builder()
        .symbol("BTCUSDT")
        .side("Buy")
        .order_type("Limit")
        .build();

    assert_eq!(request.category, "linear");
}

#[test]
fn test_create_order_request_builder_chaining() {
    let request = CreateOrderRequest::builder()
        .symbol("BTCUSDT")
        .side("Buy")
        .order_type("Limit")
        .qty("0.001")
        .price("28000")
        .time_in_force("GTC")
        .build();

    assert_eq!(request.symbol, "BTCUSDT");
    assert_eq!(request.side, "Buy");
    assert_eq!(request.order_type, "Limit");
    assert_eq!(request.qty, Some("0.001".to_string()));
    assert_eq!(request.price, Some("28000".to_string()));
    assert_eq!(request.time_in_force, Some("GTC".to_string()));
}

#[test]
fn test_create_order_request_optional_fields_skipped_in_json() {
    let request = CreateOrderRequest::builder()
        .symbol("BTCUSDT")
        .side("Buy")
        .order_type("Market")
        .build();

    let json = request.to_json();
    assert!(json.contains("\"symbol\":\"BTCUSDT\""));
    assert!(json.contains("\"side\":\"Buy\""));
    assert!(json.contains("\"orderType\":\"Market\""));
    assert!(!json.contains("\"price\""));
    assert!(!json.contains("\"qty\""));
}

#[test]
fn builder_starts_blank_and_tells_when_it_can_build() {
    let blank = CreateOrderRequest::builder();
    assert!(blank.category.is_none());
    assert!(blank.symbol.is_none());
    assert!(blank.side.is_none());
    assert!(blank.order_type.is_none());
    assert!(blank.order_filter.is_none());
    assert!(!blank.can_build());
    let with_symbol = blank.symbol("BTCUSDT");
    assert!(!with_symbol.can_build());
    let with_side = with_symbol.side("Sell");
    assert!(!with_side.can_build());
    let complete = with_side.order_type("Market");
    assert!(complete.can_build());
    let from_default = CreateOrderRequestBuilder::default();
    assert!(!from_default.can_build());
}

#[test]
fn builder_sets_every_remaining_field() {
    let request = CreateOrderRequest::builder()
        .symbol("ETHUSDT")
        .side("Sell")
        .order_type("Limit")
        .category("inverse")
        .trigger_price("1")
        .trigger_by("LastPrice")
        .tp_trigger_by("MarkPrice")
        .sl_trigger_by("IndexPrice")
        .market_unit("baseCoin")
        .slippage_tolerance_type("Percent")
        .slippage_tolerance("0.5")
        .trigger_direction(-2)
        .order_filter("Order")
        .position_idx(u64::MAX)
        .reduce_only(true)
        .close_on_trigger(true)
        .build();
    assert_eq!(request.category, "inverse");
    assert_eq!(request.trigger_price, Some("1".to_string()));
    assert_eq!(request.trigger_by, Some("LastPrice".to_string()));
    assert_eq!(request.tp_trigger_by, Some("MarkPrice".to_string()));
    assert_eq!(request.sl_trigger_by, Some("IndexPrice".to_string()));
    assert_eq!(request.market_unit, Some("baseCoin".to_string()));
    assert_eq!(request.slippage_tolerance_type, Some("Percent".to_string()));
    assert_eq!(request.slippage_tolerance, Some("0.5".to_string()));
    assert_eq!(request.trigger_direction, Some(-2));
    assert_eq!(request.order_filter, Some("Order".to_string()));
    assert_eq!(request.position_idx, Some(u64::MAX));
    assert_eq!(request.reduce_only, Some(true));
    assert_eq!(request.close_on_trigger, Some(true));
    assert_eq!(request.qty, None);
    assert_eq!(request.price, None);
    assert_eq!(request.time_in_force, None);
    assert_eq!(request.order_link_id, None);
    assert_eq!(request.take_profit, None);
    assert_eq!(request.stop_loss, None);
}

#[test]
fn builder_keeps_the_last_value_of_a_field() {
    let request = CreateOrderRequest::builder()
        .symbol("A")
        .symbol("B")
        .side("Buy")
        .order_type("Limit")
        .qty("1")
        .qty("2")
        .build();
    assert_eq!(request.symbol, "B");
    assert_eq!(request.qty, Some("2".to_string()));
}

#[test]
fn default_request_is_empty() {
    let request = CreateOrderRequest::default();
    assert_eq!(request.category, "");
    assert_eq!(request.symbol, "");
    assert_eq!(request.side, "");
    assert_eq!(request.order_type, "");
    assert!(request.qty.is_none());
    assert!(request.trigger_direction.is_none());
    assert!(request.order_filter.is_none());
}

#[test]
fn order_json_is_exact() {
    let request = CreateOrderRequest::builder()
        .symbol("BTCUSDT")
        .side("Buy")
        .order_type("Market")
        .build();
    assert_eq!(
        request.to_json(),
        "{\"category\":\"linear\",\"orderType\":\"Market\",\"side\":\"Buy\",\"symbol\":\"BTCUSDT\"}"
    );
    let full = CreateOrderRequest::builder()
        .symbol("BTC\"USDT")
        .side("Buy")
        .order_type("Limit")
        .position_idx(2)
        .reduce_only(true)
        .trigger_direction(-1)
        .trigger_by("LastPrice")
        .build();
    assert_eq!(
        full.to_json(),
        "{\"category\":\"linear\",\"orderType\":\"Limit\",\"positionIdx\":2,\"reduceOnly\":true,\"side\":\"Buy\",\"symbol\":\"BTC\\\"USDT\",\"trigger_by\":\"LastPrice\",\"trigger_direction\":-1}"
    );
}

#[test]
fn enums_compare_by_variant() {
    assert_eq!(Category::Linear, Category::Linear);
    assert_ne!(Category::Spot, Category::Option);
    assert_ne!(Category::Inverse, Category::Linear);
    assert_eq!(Side::Buy, Side::Buy);
    assert_ne!(Side::Buy, Side::Sell);
    assert_ne!(OrderType::Market, OrderType::Limit);
    assert_ne!(TimeInForce::GTC, TimeInForce::IOC);
    assert_ne!(TimeInForce::FOK, TimeInForce::PostOnly);
    assert_eq!(TimeInForce::RPI, TimeInForce::RPI);
    assert_ne!(OrderStatus::New, OrderStatus::Filled);
    assert_ne!(OrderStatus::PartiallyFilled, OrderStatus::Cancelled);
    assert_eq!(OrderStatus::Rejected, OrderStatus::Rejected);
}

#[test]
fn response_shapes_hold_their_fields() {
    let response = CreateOrderResponse {
        order_id: "1".to_string(),
        order_link_id: "mine".to_string(),
    };
    let copy = response.clone();
    assert_eq!(copy.order_id, "1");
    assert_eq!(copy.order_link_id, "mine");
}
