use gpu_charts::data_types::{ExchangeId, TradeSide};
use gpu_charts::kraken_feed::{
    kraken_action, normalize_symbol_kraken, KrakenAction, KrakenData, KrakenMessage, KrakenTickerFields,
    KrakenTradeFields,
};
use gpu_charts::feed_messages::MarketUpdate;
use gpu_charts::symbol_mapper::{AssetGroup, EquivalenceRules, SymbolMapper, SymbolMappingsConfig};

fn create_test_mapper() -> SymbolMapper {
    SymbolMapper::new(SymbolMappingsConfig {
        mappings_file: None,
        auto_discover: true,
        equivalence_rules: EquivalenceRules {
            quote_assets: vec![AssetGroup {
                group: "USD_EQUIVALENT".to_string(),
                members: vec!["USD".to_string()],
                primary: "USD".to_string(),
            }],
        },
    })
}

fn s(t: &str) -> Option<String> {
    Some(t.to_string())
}

fn decimal(t: &Option<String>) -> f64 {
    t.as_ref().map(|x| x.parse().unwrap_or(0.0)).unwrap_or(0.0)
}

fn ticker_side(u: &MarketUpdate) -> TradeSide {
    match (u.price.as_ref().map(|x| x.parse::<f32>()), u.open.as_ref().map(|x| x.parse::<f32>())) {
        (Some(Ok(p)), Some(Ok(o))) if p < o => TradeSide::Sell,
        _ => TradeSide::Buy,
    }
}

fn ticker(pair: &str, f: KrakenTickerFields) -> KrakenMessage {
    KrakenMessage::Channel { data: KrakenData::Object(f), channel_name: "ticker".to_string(), pair: pair.to_string() }
}

fn market(a: KrakenAction) -> MarketUpdate {
    match a {
        KrakenAction::Market(u) => u,
        _ => panic!("expected a market update"),
    }
}

fn trade_item(price: &str, volume: &str, time: &str, side: &str) -> Option<KrakenTradeFields> {
    Some(KrakenTradeFields { len: 6, price: s(price), volume: s(volume), time: s(time), side: s(side) })
}

#[test]
fn kraken_parse_ticker() {
    let mapper = create_test_mapper();
    let msg = ticker(
        "XBT/USD",
        KrakenTickerFields {
            last_price: s("50000.00"),
            last_volume: s("0.10000000"),
            best_ask: s("50001.00"),
            best_bid: s("49999.00"),
            open: s("49000.00"),
        },
    );
    let result = market(kraken_action(&msg, &mapper));
    assert_eq!(result.exchange, ExchangeId::Kraken);
    assert_eq!(result.symbol, "BTC-USD");
    assert_eq!(decimal(&result.price), 50000.0);
    assert_eq!(decimal(&result.volume), 0.1);
    assert_eq!(decimal(&result.best_bid), 49999.0);
    assert_eq!(decimal(&result.best_ask), 50001.0);
    assert_eq!(ticker_side(&result), TradeSide::Buy);
    assert_eq!(result.time, None);
}

#[test]
fn kraken_parse_trade() {
    let mapper = create_test_mapper();
    let msg = KrakenMessage::Channel {
        data: KrakenData::Array(vec![trade_item("3000.00", "0.50000000", "1612345678.123456", "s")]),
        channel_name: "trade".to_string(),
        pair: "ETH/USD".to_string(),
    };
    match kraken_action(&msg, &mapper) {
        KrakenAction::Trades(trades, err) => {
            assert!(err.is_none());
            assert_eq!(trades.len(), 1);
            let t = &trades[0];
            assert_eq!(t.symbol, "ETH-USD");
            assert_eq!(decimal(&t.price), 3000.0);
            assert_eq!(decimal(&t.volume), 0.5);
            assert_eq!(t.side, TradeSide::Sell);
            let secs: f64 = t.time.as_ref().unwrap().parse().unwrap();
            assert_eq!(secs as u32, 1612345678);
            assert!(((secs - (secs as u32) as f64) * 1_000_000_000.0) as u32 > 0);
        }
        _ => panic!("expected trades"),
    }
}

#[test]
fn test_xbt_to_btc_normalization() {
    let mapper = create_test_mapper();
    let msg = ticker(
        "XBT/EUR",
        KrakenTickerFields {
            last_price: s("60000.00"),
            last_volume: s("0.01"),
            best_ask: s("60001.00"),
            best_bid: s("59999.00"),
            open: s("59000.00"),
        },
    );
    assert_eq!(market(kraken_action(&msg, &mapper)).symbol, "BTC-EUR");
}

#[test]
fn kraken_pair_names() {
    assert_eq!(normalize_symbol_kraken("XBT/USD"), "BTC-USD");
    assert_eq!(normalize_symbol_kraken("ETH/XBT"), "ETH-BTC");
    assert_eq!(normalize_symbol_kraken("ETH/USD/X"), "ETH-USD/X");
    assert_eq!(normalize_symbol_kraken("ETHUSD"), "ETHUSD");
}

#[test]
fn kraken_trades_skip_short_items_and_stop_at_non_arrays() {
    let mapper = create_test_mapper();
    let short = Some(KrakenTradeFields { len: 3, price: s("1"), volume: s("1"), time: s("1"), side: None });
    let msg = KrakenMessage::Channel {
        data: KrakenData::Array(vec![
            trade_item("1.0", "2.0", "3.0", "b"),
            short,
            trade_item("4.0", "5.0", "6.0", "x"),
            None,
            trade_item("7.0", "8.0", "9.0", "s"),
        ]),
        channel_name: "trade".to_string(),
        pair: "ETH/USD".to_string(),
    };
    match kraken_action(&msg, &mapper) {
        KrakenAction::Trades(trades, err) => {
            assert_eq!(trades.len(), 2);
            assert_eq!(trades[0].side, TradeSide::Buy);
            assert_eq!(trades[1].price, s("4.0"));
            assert_eq!(trades[1].side, TradeSide::Buy);
            assert_eq!(err, s("Trade data is not an array"));
        }
        _ => panic!("expected trades"),
    }
}

#[test]
fn kraken_events_and_bad_data() {
    let mapper = create_test_mapper();
    let event = |e: &str, status: Option<String>, m: Option<String>| KrakenMessage::Event {
        event: s(e),
        status,
        error_message: m,
    };
    assert!(matches!(kraken_action(&event("heartbeat", None, None), &mapper), KrakenAction::Heartbeat));
    match kraken_action(&event("subscriptionStatus", s("error"), s("Currency pair not supported")), &mapper) {
        KrakenAction::ExchangeError(m) => assert_eq!(m, "Currency pair not supported"),
        _ => panic!("expected an error"),
    }
    assert!(matches!(
        kraken_action(&event("subscriptionStatus", s("subscribed"), None), &mapper),
        KrakenAction::Ignore
    ));
    match kraken_action(&event("error", None, None), &mapper) {
        KrakenAction::ExchangeError(m) => assert_eq!(m, "Unknown error"),
        _ => panic!("expected an error"),
    }
    assert!(matches!(kraken_action(&event("systemStatus", s("online"), None), &mapper), KrakenAction::Ignore));
    let bad = KrakenMessage::Channel { data: KrakenData::Other, channel_name: "ticker".to_string(), pair: String::new() };
    match kraken_action(&bad, &mapper) {
        KrakenAction::Malformed(m) => assert_eq!(m, "Ticker data is not an object"),
        _ => panic!("expected a malformed message"),
    }
    let book = KrakenMessage::Channel { data: KrakenData::Other, channel_name: "book".to_string(), pair: String::new() };
    assert!(matches!(kraken_action(&book, &mapper), KrakenAction::Ignore));
    assert!(matches!(kraken_action(&KrakenMessage::Other, &mapper), KrakenAction::Ignore));
}
