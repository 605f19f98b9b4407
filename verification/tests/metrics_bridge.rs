use gpu_charts::market_metrics::MarketMetrics;
use gpu_charts::metrics_bridge::{
    categorize_error, record_buffer_metrics, record_data_write, set_active_connections, MetricsBridge,
};
use gpu_charts::metrics_server::ServerMetrics;

#[test]
fn errors_are_categorised_by_keyword() {
    assert_eq!(categorize_error("Connection refused"), "connection");
    assert_eq!(categorize_error("failed to connect"), "connection");
    assert_eq!(categorize_error("could not parse frame"), "parse");
    assert_eq!(categorize_error("Parse error"), "parse");
    assert_eq!(categorize_error("read timeout"), "timeout");
    assert_eq!(categorize_error("Timeout"), "timeout");
    assert_eq!(categorize_error("subscribe rejected"), "subscription");
    assert_eq!(categorize_error("Subscribe failed"), "subscription");
    assert_eq!(categorize_error("Test error"), "other");
    assert_eq!(categorize_error(""), "other");
    // The first matching category wins.
    assert_eq!(categorize_error("connect timeout"), "connection");
    assert_eq!(categorize_error("parse timeout"), "parse");
}

#[test]
fn untracked_helpers_accept_any_values() {
    record_buffer_metrics("binance", "trades", 1 << 20);
    record_data_write("binance", "trades", 0);
    set_active_connections("binance", 3);
}

#[test]
fn test_metrics_bridge() {
    let bridge_metrics = ServerMetrics::new().unwrap();
    let mut bridge = MetricsBridge::new(MarketMetrics::new(), bridge_metrics);

    // Test recording messages
    bridge.record_message("test_exchange", 1);
    bridge.record_connection_status("test_exchange", true);
    bridge.record_reconnect("test_exchange", 2);
    bridge.record_error("test_exchange", "Test error".to_string());

    // Verify the underlying MarketMetrics was updated
    let health = bridge.inner().get_health_status();
    assert!(health.iter().any(|(k, _)| k == "test_exchange"));
    let h = bridge.inner().get_health("test_exchange").unwrap();
    assert_eq!(h.reconnect_count, 1);
    assert_eq!(h.error_count, 1);
    assert_eq!(bridge.inner().message_count("test_exchange"), 1);
}
