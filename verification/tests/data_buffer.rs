use gpu_charts::data_buffer::{
    column_file_name, market_columns, trade_columns, ColumnBytes, DataBuffer, MarketRecord, TradeRecord,
};
use gpu_charts::data_types::{ExchangeId, TradeSide};

fn market(ts: u32, nanos: u32, price: f32) -> MarketRecord {
    let mut r = MarketRecord::new(ExchangeId::Coinbase, "BTC-USD".to_string(), ts, nanos);
    r.price_bits = price.to_bits();
    r
}

#[test]
fn market_data_flushes_in_time_order_latest_wins() {
    let mut buffer = DataBuffer::new();
    buffer.add_market_data(market(1672531201, 0, 50100.0));
    buffer.add_market_data(market(1672531200, 500, 50000.0));
    buffer.add_market_data(market(1672531200, 100, 49999.0));
    buffer.add_market_data(market(1672531200, 500, 50001.0));
    let out = buffer.take_market_data();
    let times: Vec<(u32, u32)> = out.iter().map(|r| (r.timestamp, r.nanos)).collect();
    assert_eq!(times, vec![(1672531200, 100), (1672531200, 500), (1672531201, 0)]);
    assert_eq!(f32::from_bits(out[1].price_bits), 50001.0);
    assert!(buffer.take_market_data().is_empty());
}

#[test]
fn trades_flush_by_id_and_keep_market_data() {
    let mut buffer = DataBuffer::new();
    buffer.add_market_data(market(5, 0, 1.0));
    for id in [30u64, 10, 20, 10] {
        buffer.add_trade_data(TradeRecord::new(ExchangeId::Binance, "ETH-USDT".to_string(), id, 1, 0));
    }
    let trades = buffer.take_trade_data();
    assert_eq!(trades.iter().map(|t| t.trade_id).collect::<Vec<_>>(), vec![10, 20, 30]);
    assert_eq!(buffer.take_market_data().len(), 1);
}

#[test]
fn order_ids_come_from_uuid_text() {
    let mut t = TradeRecord::new(ExchangeId::Coinbase, "BTC-USD".to_string(), 1, 0, 0);
    assert_eq!(t.maker_order_id, [0; 16]);
    t.set_maker_order_id("550e8400-e29b-41d4-a716-446655440000");
    assert_ne!(t.maker_order_id, [0; 16]);
    assert_eq!(t.maker_order_id[0], 0x55);
    t.set_taker_order_id("not a uuid");
    assert_eq!(t.taker_order_id, [0; 16]);
}

#[test]
fn columns_are_little_endian() {
    let mut m = market(0x0102_0304, 7, 0.0);
    m.side = TradeSide::Sell;
    let cols = market_columns(&m);
    assert_eq!(cols[0], ColumnBytes { column: "time", bytes: vec![4, 3, 2, 1] });
    assert_eq!(cols[1].bytes, vec![7, 0, 0, 0]);
    assert_eq!(cols[4], ColumnBytes { column: "side", bytes: vec![1, 0, 0, 0] });
    assert_eq!(cols.iter().map(|c| c.column).collect::<Vec<_>>(), vec!["time", "nanos", "price", "volume", "side", "best_bid", "best_ask"]);

    let mut t = TradeRecord::new(ExchangeId::Binance, "X".to_string(), 0x0807_0605_0403_0201, 9, 0);
    t.price_bits = 3000.5f32.to_bits();
    let cols = trade_columns(&t);
    assert_eq!(cols[0], ColumnBytes { column: "id", bytes: vec![1, 2, 3, 4, 5, 6, 7, 8] });
    assert_eq!(cols[3].bytes, 3000.5f32.to_le_bytes().to_vec());
    assert_eq!(cols[6].column, "maker_order_id");
    assert_eq!(cols[6].bytes.len(), 16);
    assert_eq!(cols.len(), 8);
}

#[test]
fn column_files_are_named_by_day() {
    assert_eq!(column_file_name("price", 5, 1, 2024), "price.05.01.24.bin");
    assert_eq!(column_file_name("maker_order_id", 31, 12, 2009), "maker_order_id.31.12.09.bin");
    assert_eq!(column_file_name("time", 10, 10, 2100), "time.10.10.00.bin");
}

#[test]
fn data_types_test_uuid_conversion() {
    let mut trade = TradeRecord::new(ExchangeId::Coinbase, "BTC-USD".to_string(), 1, 0, 0);
    let uuid_str = "550e8400-e29b-41d4-a716-446655440000";
    trade.set_maker_order_id(uuid_str);

    // Verify the UUID was properly converted to bytes
    assert_ne!(trade.maker_order_id, [0; 16]);
}

#[test]
fn records_move_to_another_time() {
    let m = MarketRecord::new(ExchangeId::Coinbase, "BTC-USD".to_string(), 1, 2).with_timestamp_parts(1672531200, 500);
    assert_eq!((m.timestamp, m.nanos), (1672531200, 500));
    assert_eq!(m.symbol, "BTC-USD");
    let t = TradeRecord::new(ExchangeId::Binance, "BTC-USDT".to_string(), 12345, 1, 2).with_timestamp_parts(7, 8);
    assert_eq!((t.timestamp, t.nanos, t.trade_id), (7, 8, 12345));
    assert_eq!(t.side, TradeSide::Buy);
}
