use gpu_charts::metrics_exporter::{
    record_data_gap, record_error, record_large_trade, record_message, record_parse_error, record_reconnection,
    record_trade, ExporterMetrics,
};

fn counter_value(family: &str, labels: &[(&str, &str)]) -> f64 {
    for mf in prometheus::gather() {
        if mf.get_name() != family {
            continue;
        }
        for m in mf.get_metric() {
            let pairs = m.get_label();
            if pairs.len() == labels.len()
                && labels.iter().all(|(k, v)| pairs.iter().any(|p| p.get_name() == *k && p.get_value() == *v))
            {
                return m.get_counter().get_value();
            }
        }
    }
    0.0
}

#[test]
fn test_metrics_recording() {
    let mut metrics = ExporterMetrics::new().unwrap();
    record_message(&mut metrics, "binance", "ticker");
    record_trade(&mut metrics, "binance", "BTC-USD");

    // Verify metrics are recorded
    let families = prometheus::gather();
    assert!(!families.is_empty());

    assert_eq!(counter_value("gpu_charts_exchange_messages_total", &[("exchange", "binance"), ("message_type", "ticker")]), 1.0);
    assert_eq!(counter_value("gpu_charts_trades_processed_total", &[("exchange", "binance"), ("symbol", "BTC-USD")]), 1.0);

    record_message(&mut metrics, "binance", "ticker");
    record_message(&mut metrics, "coinbase", "ticker");
    record_error(&mut metrics, "binance", "parse");
    record_reconnection(&mut metrics, "okx");
    record_large_trade(&mut metrics, "kraken", "XBT/USD");
    record_data_gap(&mut metrics, "kraken", "XBT/USD");
    record_parse_error(&mut metrics, "okx", "trades");
    assert_eq!(counter_value("gpu_charts_exchange_messages_total", &[("exchange", "binance"), ("message_type", "ticker")]), 2.0);
    assert_eq!(counter_value("gpu_charts_exchange_messages_total", &[("exchange", "coinbase"), ("message_type", "ticker")]), 1.0);
    assert_eq!(counter_value("gpu_charts_exchange_errors_total", &[("exchange", "binance"), ("error_type", "parse")]), 1.0);
    assert_eq!(counter_value("gpu_charts_exchange_reconnections_total", &[("exchange", "okx")]), 1.0);
    assert_eq!(counter_value("gpu_charts_large_trades_total", &[("exchange", "kraken"), ("symbol", "XBT/USD")]), 1.0);
    assert_eq!(counter_value("gpu_charts_data_gaps_detected_total", &[("exchange", "kraken"), ("symbol", "XBT/USD")]), 1.0);
    assert_eq!(counter_value("gpu_charts_parse_errors_total", &[("exchange", "okx"), ("data_type", "trades")]), 1.0);

    // The families are registered once per process: a second set is refused.
    match ExporterMetrics::new() {
        Err(gpu_charts::metric_store::MetricsError::Registration(name)) => {
            assert_eq!(name, "gpu_charts_exchange_messages_total")
        }
        _ => panic!("a second registration must be refused"),
    }
}
