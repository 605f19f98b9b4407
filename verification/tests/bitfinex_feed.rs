use gpu_charts::bitfinex_feed::{
    bitfinex_step, BitfinexAction, BitfinexChannels, BitfinexMessage, BitfinexTickerFields, BitfinexTrade,
    BitfinexTradeFields, BitfinexTrades,
};
use gpu_charts::data_types::TradeSide;

fn s(t: &str) -> Option<String> {
    Some(t.to_string())
}

fn subscribed(channels: &mut BitfinexChannels, id: i64, channel: &str, symbol: &str) {
    let msg = BitfinexMessage::Event {
        event: s("subscribed"),
        chan_id: Some(id),
        channel: s(channel),
        symbol: s(symbol),
        msg: None,
    };
    assert!(matches!(bitfinex_step(channels, &msg), BitfinexAction::Ignore));
}

fn channel(id: i64, ticker: Option<BitfinexTickerFields>, trades: BitfinexTrades) -> BitfinexMessage {
    BitfinexMessage::Channel { chan_id: id, heartbeat: false, ticker, trades }
}

fn item(id: i64, ms: i64, amount: &str, price: &str) -> BitfinexTradeFields {
    BitfinexTradeFields { id: Some(id), millis: Some(ms), amount: s(amount), price: s(price) }
}

fn number(t: &Option<String>) -> f64 {
    t.as_ref().map(|x| x.parse().unwrap_or(0.0)).unwrap_or(0.0)
}

/// The side and size a trade is stored with.
fn side_and_size(t: &BitfinexTrade) -> (TradeSide, f32) {
    let amount = number(&t.amount);
    (if amount >= 0.0 { TradeSide::Buy } else { TradeSide::Sell }, amount.abs() as f32)
}

fn trades(a: BitfinexAction) -> Vec<BitfinexTrade> {
    match a {
        BitfinexAction::Trades(v) => v,
        _ => panic!("expected trades"),
    }
}

#[test]
fn test_parse_ticker_update() {
    let mut channels = BitfinexChannels::new();
    subscribed(&mut channels, 123, "ticker", "tBTCUSD");
    let fields = BitfinexTickerFields {
        bid: s("50000.0"),
        ask: s("50001.0"),
        daily_change: s("1000.0"),
        last_price: s("50000.5"),
        volume: s("1234.56"),
    };
    match bitfinex_step(&mut channels, &channel(123, Some(fields), BitfinexTrades::NoTrades)) {
        BitfinexAction::Ticker(t) => {
            assert_eq!(t.symbol, "tBTCUSD");
            assert_eq!(number(&t.best_bid), 50000.0);
            assert_eq!(number(&t.best_ask), 50001.0);
            assert_eq!(number(&t.price), 50000.5);
            assert_eq!(number(&t.volume), 1234.56);
            assert!(number(&t.daily_change) >= 0.0);
        }
        _ => panic!("expected a ticker"),
    }
}

#[test]
fn test_parse_trade_update_single() {
    let mut channels = BitfinexChannels::new();
    subscribed(&mut channels, 234, "trades", "tETHUSD");
    let msg = channel(234, None, BitfinexTrades::Update(Some(item(123456789, 1640995200000, "0.1", "30000.0"))));
    let v = trades(bitfinex_step(&mut channels, &msg));
    assert_eq!(v.len(), 1);
    assert_eq!(v[0].symbol, "tETHUSD");
    assert_eq!(v[0].trade_id, 123456789);
    assert_eq!(v[0].time, (1640995200, 0));
    assert_eq!(number(&v[0].price), 30000.0);
    assert_eq!(side_and_size(&v[0]), (TradeSide::Buy, 0.1));
}

#[test]
fn test_parse_trade_update_sell() {
    let mut channels = BitfinexChannels::new();
    subscribed(&mut channels, 234, "trades", "tETHUSD");
    let msg = channel(234, None, BitfinexTrades::Update(Some(item(987654321, 1640995200000, "-0.5", "30000.0"))));
    let v = trades(bitfinex_step(&mut channels, &msg));
    assert_eq!(v.len(), 1);
    assert_eq!(side_and_size(&v[0]), (TradeSide::Sell, 0.5));
}

#[test]
fn test_parse_trade_snapshot() {
    let mut channels = BitfinexChannels::new();
    subscribed(&mut channels, 234, "trades", "tETHUSD");
    let msg = channel(
        234,
        None,
        BitfinexTrades::Snapshot(vec![
            Some(item(123456789, 1640995200000, "0.1", "30000.0")),
            None,
            Some(item(123456790, 1640995201000, "-0.2", "30001.0")),
            Some(item(123456791, 1640995202000, "0.15", "29999.0")),
        ]),
    );
    let v = trades(bitfinex_step(&mut channels, &msg));
    assert_eq!(v.len(), 3);
    assert_eq!(v[0].trade_id, 123456789);
    assert_eq!(side_and_size(&v[0]).0, TradeSide::Buy);
    assert_eq!(v[1].trade_id, 123456790);
    assert_eq!(side_and_size(&v[1]).0, TradeSide::Sell);
    assert_eq!(v[1].time, (1640995201, 0));
    assert_eq!(v[2].trade_id, 123456791);
    assert_eq!(side_and_size(&v[2]).0, TradeSide::Buy);
}

#[test]
fn test_parse_heartbeat() {
    let mut channels = BitfinexChannels::new();
    subscribed(&mut channels, 123, "ticker", "tBTCUSD");
    let hb = BitfinexMessage::Channel { chan_id: 123, heartbeat: true, ticker: None, trades: BitfinexTrades::NoTrades };
    assert!(matches!(bitfinex_step(&mut channels, &hb), BitfinexAction::Ignore));
    subscribed(&mut channels, 124, "trades", "tBTCUSD");
    let hb = BitfinexMessage::Channel { chan_id: 124, heartbeat: true, ticker: None, trades: BitfinexTrades::NoTrades };
    assert!(matches!(bitfinex_step(&mut channels, &hb), BitfinexAction::Ignore));
}

#[test]
fn bitfinex_channels_and_errors() {
    let mut channels = BitfinexChannels::new();
    let msg = channel(7, None, BitfinexTrades::Update(Some(item(1, 0, "1", "1"))));
    assert!(matches!(bitfinex_step(&mut channels, &msg), BitfinexAction::Ignore));
    assert_eq!(channels.get(7), None);
    subscribed(&mut channels, 7, "trades", "tBTCUSD");
    assert_eq!(channels.get(7), Some(("trades".to_string(), "tBTCUSD".to_string())));
    let v = trades(bitfinex_step(&mut channels, &msg));
    assert_eq!(v[0].symbol, "tBTCUSD");
    subscribed(&mut channels, 7, "ticker", "tETHUSD");
    assert_eq!(channels.get(7), Some(("ticker".to_string(), "tETHUSD".to_string())));
    let incomplete = BitfinexMessage::Event { event: s("subscribed"), chan_id: Some(8), channel: s("ticker"), symbol: None, msg: None };
    bitfinex_step(&mut channels, &incomplete);
    assert_eq!(channels.get(8), None);
    let missing = BitfinexTradeFields { id: None, millis: None, amount: None, price: None };
    subscribed(&mut channels, 9, "trades", "tXRPUSD");
    let v = trades(bitfinex_step(&mut channels, &channel(9, None, BitfinexTrades::Update(Some(missing)))));
    assert_eq!((v[0].trade_id, v[0].time), (0, (0, 0)));
    let negative = item(-1, 1000, "1", "1");
    let v = trades(bitfinex_step(&mut channels, &channel(9, None, BitfinexTrades::Update(Some(negative)))));
    assert_eq!((v[0].trade_id, v[0].time), (u64::MAX, (1, 0)));
    assert!(matches!(bitfinex_step(&mut channels, &channel(9, None, BitfinexTrades::Snapshot(vec![None]))), BitfinexAction::Ignore));
    let error = BitfinexMessage::Event { event: s("error"), chan_id: None, channel: None, symbol: None, msg: s("symbol: invalid") };
    match bitfinex_step(&mut channels, &error) {
        BitfinexAction::ExchangeError(m) => assert_eq!(m, "Bitfinex error: symbol: invalid"),
        _ => panic!("expected an error"),
    }
    let error = BitfinexMessage::Event { event: s("error"), chan_id: None, channel: None, symbol: None, msg: None };
    match bitfinex_step(&mut channels, &error) {
        BitfinexAction::ExchangeError(m) => assert_eq!(m, "Bitfinex error: Unknown error"),
        _ => panic!("expected an error"),
    }
    assert!(matches!(bitfinex_step(&mut channels, &BitfinexMessage::Other), BitfinexAction::Ignore));
}
