use gpu_charts::metrics_bridge::{process_market_data, process_trade_data};
use gpu_charts::metrics_server::ServerMetrics;

fn counter_value(family: &str, labels: &[(&str, &str)]) -> f64 {
    for mf in prometheus::gather() {
        if mf.get_name() != family {
            continue;
        }
        for m in mf.get_metric() {
            let pairs = m.get_label();
            if pairs.len() == labels.len()
                && labels.iter().all(|(k, v)| pairs.iter().any(|p| p.get_name() == *k && p.get_value() == *v))
            {
                return m.get_counter().get_value();
            }
        }
    }
    0.0
}

#[test]
fn test_trade_processing() {
    let mut metrics = ServerMetrics::new().unwrap();
    let price: f32 = 50000.0;
    let size: f32 = 0.5;
    let trade_value = price as f64 * size as f64;
    process_trade_data(&mut metrics, "binance", "BTC-USD", trade_value > 10000.0);

    let msgs = "gpu_charts_exchange_messages_total";
    assert_eq!(counter_value(msgs, &[("exchange", "binance"), ("message_type", "trade")]), 2.0);
    assert_eq!(counter_value(msgs, &[("exchange", "binance"), ("message_type", "large_trade")]), 1.0);

    // A small trade is not counted as large.
    process_trade_data(&mut metrics, "binance", "BTC-USD", false);
    assert_eq!(counter_value(msgs, &[("exchange", "binance"), ("message_type", "trade")]), 4.0);
    assert_eq!(counter_value(msgs, &[("exchange", "binance"), ("message_type", "large_trade")]), 1.0);

    process_market_data(&mut metrics, "coinbase");
    assert_eq!(counter_value(msgs, &[("exchange", "coinbase"), ("message_type", "market_data")]), 1.0);
}
