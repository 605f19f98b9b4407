use gpu_charts::metric_store::MetricsError;
use gpu_charts::metrics_server::{
    increment_data_gap, increment_error_count, increment_message_count, increment_reconnection_count,
    record_data_written, record_error, record_large_trade, record_message, record_reconnection, record_trade,
    ServerMetrics,
};

fn counter_value(family: &str, labels: &[(&str, &str)]) -> f64 {
    for mf in prometheus::gather() {
        if mf.get_name() != family {
            continue;
        }
        for m in mf.get_metric() {
            let pairs = m.get_label();
            if pairs.len() == labels.len()
                && labels.iter().all(|(k, v)| pairs.iter().any(|p| p.get_name() == *k && p.get_value() == *v))
            {
                return m.get_counter().get_value();
            }
        }
    }
    0.0
}

#[test]
fn endpoint_counters_record_events() {
    let mut metrics = ServerMetrics::new().unwrap();
    increment_message_count(&mut metrics, "coinbase", "ticker");
    record_message(&mut metrics, "coinbase", "ticker");
    record_trade(&mut metrics, "coinbase", "BTC-USD");
    record_large_trade(&mut metrics, "coinbase", "BTC-USD");
    increment_error_count(&mut metrics, "coinbase", "timeout");
    record_error(&mut metrics, "coinbase", "timeout");
    increment_reconnection_count(&mut metrics, "coinbase");
    record_reconnection(&mut metrics, "coinbase");
    increment_data_gap(&mut metrics, "okx", "BTC-USDT");
    record_data_written("coinbase", "trades", 4096);

    let msgs = "gpu_charts_exchange_messages_total";
    assert_eq!(counter_value(msgs, &[("exchange", "coinbase"), ("message_type", "ticker")]), 2.0);
    assert_eq!(counter_value(msgs, &[("exchange", "coinbase"), ("message_type", "trade")]), 1.0);
    assert_eq!(counter_value(msgs, &[("exchange", "coinbase"), ("message_type", "large_trade")]), 1.0);
    assert_eq!(counter_value("gpu_charts_exchange_errors_total", &[("exchange", "coinbase"), ("error_type", "timeout")]), 2.0);
    assert_eq!(counter_value("gpu_charts_exchange_reconnections_total", &[("exchange", "coinbase")]), 2.0);
    assert_eq!(counter_value("gpu_charts_data_gaps_total", &[("exchange", "okx"), ("symbol", "BTC-USDT")]), 1.0);

    let help_of = |name: &str| -> Option<String> {
        prometheus::gather().into_iter().find(|mf| mf.get_name() == name).map(|mf| mf.get_help().to_string())
    };
    assert_eq!(help_of(msgs).as_deref(), Some("Total messages received from each exchange"));
    assert_eq!(help_of("gpu_charts_exchange_errors_total").as_deref(), Some("Total errors by exchange and type"));
    assert_eq!(help_of("gpu_charts_exchange_reconnections_total").as_deref(), Some("Total reconnection attempts"));
    assert_eq!(help_of("gpu_charts_data_gaps_total").as_deref(), Some("Total data gaps detected"));

    match ServerMetrics::new() {
        Err(MetricsError::Registration(name)) => assert_eq!(name, "gpu_charts_exchange_messages_total"),
        _ => panic!("a second registration must be refused"),
    }
}
