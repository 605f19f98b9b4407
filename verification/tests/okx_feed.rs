use gpu_charts::data_types::{ExchangeId, TradeSide};
use gpu_charts::feed_messages::{MarketUpdate, TradeUpdate};
use gpu_charts::okx_feed::{okx_action, OkxAction, OkxItem, OkxMessage};
use gpu_charts::symbol_mapper::{AssetGroup, EquivalenceRules, SymbolMapper, SymbolMappingsConfig};

fn create_test_mapper() -> SymbolMapper {
    SymbolMapper::new(SymbolMappingsConfig {
        mappings_file: None,
        auto_discover: true,
        equivalence_rules: EquivalenceRules {
            quote_assets: vec![AssetGroup {
                group: "USD_EQUIVALENT".to_string(),
                members: vec!["USDT".to_string()],
                primary: "USDT".to_string(),
            }],
        },
    })
}

fn s(t: &str) -> Option<String> {
    Some(t.to_string())
}

fn item() -> OkxItem {
    OkxItem {
        inst_id: None,
        ts: None,
        last: None,
        last_size: None,
        bid: None,
        ask: None,
        open_24h: None,
        trade_id: None,
        price: None,
        size: None,
        side: None,
    }
}

fn data(channel: &str, items: Vec<OkxItem>) -> OkxMessage {
    OkxMessage::Data { channel: channel.to_string(), items }
}

fn decimal(t: &Option<String>) -> f32 {
    t.as_ref().map(|x| x.parse().unwrap_or(0.0)).unwrap_or(0.0)
}

fn ticker_side(u: &MarketUpdate) -> TradeSide {
    match (u.price.as_ref().map(|x| x.parse::<f32>()), u.open.as_ref().map(|x| x.parse::<f32>())) {
        (Some(Ok(p)), Some(Ok(o))) if p < o => TradeSide::Sell,
        _ => TradeSide::Buy,
    }
}

fn markets(a: OkxAction) -> (Vec<MarketUpdate>, Option<String>) {
    match a {
        OkxAction::Markets(v, e) => (v, e),
        _ => panic!("expected ticker updates"),
    }
}

fn trades(a: OkxAction) -> (Vec<TradeUpdate>, Option<String>) {
    match a {
        OkxAction::Trades(v, e) => (v, e),
        _ => panic!("expected trades"),
    }
}

const ARRIVAL: (u32, u32) = (1700000000, 5);

#[test]
fn okx_parse_ticker() {
    let mapper = create_test_mapper();
    let msg = data(
        "tickers",
        vec![OkxItem {
            inst_id: s("BTC-USDT"),
            last: s("43508.1"),
            last_size: s("0.00001"),
            ask: s("43508.1"),
            bid: s("43508"),
            open_24h: s("43000"),
            ts: s("1609459200000"),
            ..item()
        }],
    );
    let (v, err) = markets(okx_action(&msg, &mapper, ARRIVAL));
    assert!(err.is_none());
    let result = &v[0];
    assert_eq!(result.exchange, ExchangeId::OKX);
    assert_eq!(result.symbol, "BTC-USDT");
    assert_eq!(decimal(&result.price), 43508.1);
    assert_eq!(decimal(&result.volume), 0.00001);
    assert_eq!(decimal(&result.best_bid), 43508.0);
    assert_eq!(decimal(&result.best_ask), 43508.1);
    assert_eq!(ticker_side(result), TradeSide::Buy);
    assert_eq!(result.time, Some((1609459200, 0)));
}

#[test]
fn okx_parse_trade() {
    let mapper = create_test_mapper();
    let msg = data(
        "trades",
        vec![OkxItem {
            inst_id: s("BTC-USDT"),
            trade_id: s("242720720"),
            price: s("43508.1"),
            size: s("0.00001"),
            side: s("sell"),
            ts: s("1609459200000"),
            ..item()
        }],
    );
    let (v, err) = trades(okx_action(&msg, &mapper, ARRIVAL));
    assert!(err.is_none());
    let result = &v[0];
    assert_eq!(result.exchange, ExchangeId::OKX);
    assert_eq!(result.symbol, "BTC-USDT");
    assert_eq!(result.trade_id, 242720720);
    assert_eq!(decimal(&result.price), 43508.1);
    assert_eq!(decimal(&result.size), 0.00001);
    assert_eq!(result.side, TradeSide::Sell);
    assert_eq!(result.time, Some((1609459200, 0)));
    assert_ne!(result.maker_order_id, [0; 16]);
    assert_ne!(result.taker_order_id, [0; 16]);
    let mut reversed = result.maker_order_id;
    reversed[8..].reverse();
    assert_eq!(&reversed[..8], &reversed[8..]);
}

#[test]
fn test_parse_ticker_with_price_decrease() {
    let mapper = create_test_mapper();
    let msg = data(
        "tickers",
        vec![OkxItem {
            inst_id: s("ETH-USDT"),
            last: s("2500"),
            last_size: s("0.1"),
            ask: s("2501"),
            bid: s("2499"),
            open_24h: s("2600"),
            ts: s("1609459200000"),
            ..item()
        }],
    );
    let (v, _) = markets(okx_action(&msg, &mapper, ARRIVAL));
    assert_eq!(ticker_side(&v[0]), TradeSide::Sell);
}

#[test]
fn okx_missing_fields_times_and_events() {
    let mapper = create_test_mapper();
    let msg = data(
        "trades",
        vec![
            OkxItem { inst_id: s("BTC-USDT"), trade_id: s("+12"), ts: s("soon"), ..item() },
            OkxItem { inst_id: s("BTC-USDT"), trade_id: s("-1"), ts: s("1000"), side: s("buy"), ..item() },
            item(),
            OkxItem { inst_id: s("ETH-USDT"), ..item() },
        ],
    );
    let (v, err) = trades(okx_action(&msg, &mapper, ARRIVAL));
    assert_eq!(v.len(), 2);
    assert_eq!((v[0].trade_id, v[0].time), (12, Some(ARRIVAL)));
    assert_eq!((v[1].trade_id, v[1].time), (0, Some((1, 0))));
    assert_eq!(v[1].side, TradeSide::Buy);
    assert_eq!(err, s("Missing instId"));
    let (v, err) = markets(okx_action(&data("tickers", vec![]), &mapper, ARRIVAL));
    assert!(v.is_empty() && err.is_none());
    assert!(matches!(okx_action(&data("books", vec![item()]), &mapper, ARRIVAL), OkxAction::Ignore));
    let error = OkxMessage::Event { event: "error".to_string(), code: s("60012"), msg: s("Invalid request") };
    match okx_action(&error, &mapper, ARRIVAL) {
        OkxAction::ExchangeError(m) => assert_eq!(m, "OKX error: 60012 - Invalid request"),
        _ => panic!("expected an error"),
    }
    let error = OkxMessage::Event { event: "error".to_string(), code: None, msg: None };
    match okx_action(&error, &mapper, ARRIVAL) {
        OkxAction::ExchangeError(m) => assert_eq!(m, "OKX error:  - Unknown error"),
        _ => panic!("expected an error"),
    }
    let subscribed = OkxMessage::Event { event: "subscribe".to_string(), code: None, msg: None };
    assert!(matches!(okx_action(&subscribed, &mapper, ARRIVAL), OkxAction::Ignore));
    assert!(matches!(okx_action(&OkxMessage::Other, &mapper, ARRIVAL), OkxAction::Ignore));
}
