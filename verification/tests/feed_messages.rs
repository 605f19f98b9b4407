use gpu_charts::data_types::{ExchangeId, TradeSide};
use gpu_charts::feed_messages::{
    binance_action, coinbase_action, parse_rfc3339, BinanceEvent, BinanceMessage, CoinbaseMessage, FeedAction,
    MarketUpdate, TradeUpdate,
};
use gpu_charts::symbol_mapper::{AssetGroup, EquivalenceRules, SymbolMapper, SymbolMappingsConfig};

fn create_test_mapper() -> SymbolMapper {
    SymbolMapper::new(SymbolMappingsConfig {
        mappings_file: None,
        auto_discover: true,
        equivalence_rules: EquivalenceRules {
            quote_assets: vec![AssetGroup {
                group: "USD_EQUIVALENT".to_string(),
                members: vec!["USD".to_string(), "USDT".to_string()],
                primary: "USD".to_string(),
            }],
        },
    })
}

fn s(t: &str) -> Option<String> {
    Some(t.to_string())
}

fn event() -> BinanceEvent {
    BinanceEvent {
        event_type: None,
        symbol: None,
        event_time: None,
        trade_time: None,
        trade_id: None,
        last_price: None,
        open_price: None,
        volume: None,
        best_bid: None,
        best_ask: None,
        price: None,
        quantity: None,
        buyer_is_maker: None,
    }
}

fn wrapped(ev: BinanceEvent) -> BinanceMessage {
    BinanceMessage { data: Some(ev), has_result: false, error: None }
}

fn coinbase() -> CoinbaseMessage {
    CoinbaseMessage {
        msg_type: None,
        product_id: None,
        time: None,
        price: None,
        last_size: None,
        best_bid: None,
        best_ask: None,
        open_24h: None,
        trade_id: None,
        sequence: None,
        size: None,
        side: None,
        maker_order_id: None,
        taker_order_id: None,
        message: None,
    }
}

fn decimal(t: &Option<String>) -> f32 {
    t.as_ref().map(|x| x.parse().unwrap_or(0.0)).unwrap_or(0.0)
}

/// The side a ticker is stored with: buy when the price is at least the open.
fn ticker_side(u: &MarketUpdate) -> TradeSide {
    match (u.price.as_ref().map(|x| x.parse::<f32>()), u.open.as_ref().map(|x| x.parse::<f32>())) {
        (Some(Ok(p)), Some(Ok(o))) if p < o => TradeSide::Sell,
        _ => TradeSide::Buy,
    }
}

fn market(a: FeedAction) -> MarketUpdate {
    match a {
        FeedAction::Market(u) => u,
        _ => panic!("expected a market update"),
    }
}

fn trade(a: FeedAction) -> TradeUpdate {
    match a {
        FeedAction::Trade(t) => t,
        _ => panic!("expected a trade"),
    }
}

fn malformed(a: FeedAction) -> String {
    match a {
        FeedAction::Malformed(m) => m,
        _ => panic!("expected a malformed message"),
    }
}

fn exchange_error(a: FeedAction) -> String {
    match a {
        FeedAction::ExchangeError(m) => m,
        _ => panic!("expected an exchange error"),
    }
}

fn ignored(a: &FeedAction) -> bool {
    matches!(a, FeedAction::Ignore)
}

#[test]
fn test_parse_binance_ticker() {
    let mapper = create_test_mapper();
    let msg = wrapped(BinanceEvent {
        event_type: s("24hrTicker"),
        event_time: Some(1672531200000),
        symbol: s("BTCUSDT"),
        last_price: s("50000.00"),
        open_price: s("49000.00"),
        volume: s("1234.56"),
        best_bid: s("49999.00"),
        best_ask: s("50001.00"),
        ..event()
    });
    let result = market(binance_action(&msg, &mapper));
    assert_eq!(result.exchange, ExchangeId::Binance);
    assert_eq!(result.symbol, "BTC-USDT");
    assert_eq!(decimal(&result.price), 50000.0);
    assert_eq!(decimal(&result.volume), 1234.56);
    assert_eq!(decimal(&result.best_bid), 49999.0);
    assert_eq!(decimal(&result.best_ask), 50001.0);
    assert_eq!(ticker_side(&result), TradeSide::Buy);
    assert_eq!(result.time, Some((1672531200, 0)));
    assert_eq!(result.time.unwrap().1, 0);
}

#[test]
fn test_parse_binance_trade() {
    let mapper = create_test_mapper();
    let msg = wrapped(BinanceEvent {
        event_type: s("trade"),
        event_time: Some(1672531200123),
        symbol: s("ETHUSDT"),
        trade_id: Some(123456789),
        price: s("3000.50"),
        quantity: s("0.5"),
        trade_time: Some(1672531200100),
        buyer_is_maker: Some(true),
        ..event()
    });
    let result = trade(binance_action(&msg, &mapper));
    assert_eq!(result.exchange, ExchangeId::Binance);
    assert_eq!(result.symbol, "ETH-USDT");
    assert_eq!(result.trade_id, 123456789);
    assert_eq!(decimal(&result.price), 3000.5);
    assert_eq!(decimal(&result.size), 0.5);
    assert_eq!(result.side, TradeSide::Sell);
    assert_eq!(result.time.unwrap().0, 1672531200);
    assert_eq!(result.time.unwrap().1, 100_000_000);
}

#[test]
fn parser_test_parse_ticker() {
    let msg = CoinbaseMessage {
        msg_type: s("ticker"),
        product_id: s("BTC-USD"),
        price: s("50000.00"),
        last_size: s("0.1"),
        best_bid: s("49999.00"),
        best_ask: s("50001.00"),
        time: s("2023-01-01T00:00:00.000Z"),
        open_24h: s("49000.00"),
        ..coinbase()
    };
    let result = market(coinbase_action(&msg));
    assert_eq!(result.exchange, ExchangeId::Coinbase);
    assert_eq!(result.symbol, "BTC-USD");
    assert_eq!(decimal(&result.price), 50000.0);
    assert_eq!(decimal(&result.volume), 0.1);
    assert_eq!(decimal(&result.best_bid), 49999.0);
    assert_eq!(decimal(&result.best_ask), 50001.0);
    assert_eq!(ticker_side(&result), TradeSide::Buy);
}

#[test]
fn parser_test_parse_trade() {
    let msg = CoinbaseMessage {
        msg_type: s("match"),
        trade_id: Some(123456),
        product_id: s("ETH-USD"),
        price: s("3000.00"),
        size: s("0.5"),
        side: s("sell"),
        time: s("2023-01-01T00:00:00.000Z"),
        maker_order_id: s("550e8400-e29b-41d4-a716-446655440000"),
        taker_order_id: s("6ba7b810-9dad-11d1-80b4-00c04fd430c8"),
        ..coinbase()
    };
    let result = trade(coinbase_action(&msg));
    assert_eq!(result.exchange, ExchangeId::Coinbase);
    assert_eq!(result.symbol, "ETH-USD");
    assert_eq!(result.trade_id, 123456);
    assert_eq!(decimal(&result.price), 3000.0);
    assert_eq!(decimal(&result.size), 0.5);
    assert_eq!(result.side, TradeSide::Sell);
    assert_ne!(result.maker_order_id, [0; 16]);
    assert_ne!(result.taker_order_id, [0; 16]);
}

#[test]
fn binance_trade_order_ids_hold_the_trade_id() {
    let mapper = create_test_mapper();
    let msg = wrapped(BinanceEvent {
        event_type: s("trade"),
        symbol: s("ETHUSDT"),
        trade_id: Some(123456789),
        ..event()
    });
    let result = trade(binance_action(&msg, &mapper));
    let le = 123456789u64.to_le_bytes();
    assert_eq!(&result.maker_order_id[..8], &le);
    assert_eq!(&result.maker_order_id[8..], &[0u8; 8]);
    assert_eq!(&result.taker_order_id[..8], &[0u8; 8]);
    assert_eq!(&result.taker_order_id[8..], &le);
    assert_eq!(result.side, TradeSide::Buy);
    assert_eq!(result.time, None);
}

#[test]
fn binance_missing_fields_are_malformed() {
    let mapper = create_test_mapper();
    let no_symbol = wrapped(BinanceEvent { event_type: s("24hrTicker"), ..event() });
    assert_eq!(malformed(binance_action(&no_symbol, &mapper)), "Missing symbol");
    let trade_no_symbol = wrapped(BinanceEvent { event_type: s("trade"), trade_id: Some(1), ..event() });
    assert_eq!(malformed(binance_action(&trade_no_symbol, &mapper)), "Missing symbol");
    let no_id = wrapped(BinanceEvent { event_type: s("trade"), symbol: s("BTCUSDT"), ..event() });
    assert_eq!(malformed(binance_action(&no_id, &mapper)), "Missing trade ID");
}

#[test]
fn binance_replies_errors_and_other_events() {
    let mapper = create_test_mapper();
    let reply = BinanceMessage { data: None, has_result: true, error: s("ignored") };
    assert!(ignored(&binance_action(&reply, &mapper)));
    let error = BinanceMessage { data: None, has_result: false, error: s("String(\"bad\")") };
    assert_eq!(exchange_error(binance_action(&error, &mapper)), "Binance error: String(\"bad\")");
    let empty = BinanceMessage { data: None, has_result: false, error: None };
    assert!(ignored(&binance_action(&empty, &mapper)));
    let depth = wrapped(BinanceEvent { event_type: s("depthUpdate"), symbol: s("BTCUSDT"), ..event() });
    assert!(ignored(&binance_action(&depth, &mapper)));
    let untyped = wrapped(BinanceEvent { symbol: s("BTCUSDT"), ..event() });
    assert!(ignored(&binance_action(&untyped, &mapper)));
}

#[test]
fn coinbase_trade_time_and_order_ids() {
    let msg = CoinbaseMessage {
        msg_type: s("match"),
        product_id: s("ETH-USD"),
        sequence: Some(77),
        time: s("2023-01-01T00:00:00.000Z"),
        maker_order_id: s("550e8400-e29b-41d4-a716-446655440000"),
        taker_order_id: s("not a uuid"),
        side: s("buy"),
        ..coinbase()
    };
    let result = trade(coinbase_action(&msg));
    assert_eq!(result.trade_id, 77);
    assert_eq!(result.time, Some((1672531200, 0)));
    assert_eq!(result.maker_order_id[0], 0x55);
    assert_eq!(result.maker_order_id[15], 0x00);
    assert_eq!(result.taker_order_id, [0; 16]);
    assert_eq!(result.side, TradeSide::Buy);
    let bare = CoinbaseMessage { msg_type: s("match"), product_id: s("ETH-USD"), ..coinbase() };
    let result = trade(coinbase_action(&bare));
    assert_eq!(result.trade_id, 0);
    assert_eq!(result.time, None);
}

#[test]
fn coinbase_errors_heartbeats_and_other_types() {
    let no_product = CoinbaseMessage { msg_type: s("ticker"), ..coinbase() };
    assert_eq!(malformed(coinbase_action(&no_product)), "Missing product_id");
    let no_product = CoinbaseMessage { msg_type: s("match"), ..coinbase() };
    assert_eq!(malformed(coinbase_action(&no_product)), "Missing product_id");
    let error = CoinbaseMessage { msg_type: s("error"), message: s("Failed to subscribe"), ..coinbase() };
    assert_eq!(exchange_error(coinbase_action(&error)), "Failed to subscribe");
    let bare_error = CoinbaseMessage { msg_type: s("error"), ..coinbase() };
    assert_eq!(exchange_error(coinbase_action(&bare_error)), "Unknown error");
    let heartbeat = CoinbaseMessage { msg_type: s("heartbeat"), ..coinbase() };
    assert!(matches!(coinbase_action(&heartbeat), FeedAction::Heartbeat));
    let last_match = CoinbaseMessage { msg_type: s("last_match"), product_id: s("ETH-USD"), ..coinbase() };
    assert!(ignored(&coinbase_action(&last_match)));
    assert!(ignored(&coinbase_action(&coinbase())));
}

#[test]
fn rfc3339_readings() {
    assert_eq!(parse_rfc3339("2023-01-01T00:00:00.000Z"), Some((1672531200, 0)));
    assert_eq!(parse_rfc3339("2023-01-01T00:00:01.5+01:00"), Some((1672531200 - 3599, 500_000_000)));
    assert_eq!(parse_rfc3339("yesterday"), None);
}
