use gpu_charts::market_metrics::{ConnectionHealth, MarketMetrics};
use std::collections::HashMap;

#[test]
fn test_market_metrics() {
    let mut metrics = MarketMetrics::new();

    metrics.record_message("coinbase", 1);
    metrics.record_message("coinbase", 2);
    metrics.record_message("binance", 3);

    assert_eq!(metrics.message_count("coinbase"), 2);
    assert_eq!(metrics.message_count("binance"), 1);

    metrics.record_connection_status("coinbase", true);
    metrics.record_connection_status("binance", false); // Create entry first
    metrics.record_error("binance", "Connection timeout".to_string());

    let health: HashMap<String, ConnectionHealth> = metrics.get_health_status().into_iter().collect();
    assert!(health.get("coinbase").unwrap().connected);
    assert_eq!(health.get("binance").unwrap().error_count, 1);
}

#[test]
fn events_for_unknown_exchanges_are_ignored() {
    let mut metrics = MarketMetrics::new();
    metrics.record_error("kraken", "boom".to_string());
    metrics.record_reconnect("kraken", 10);
    assert!(metrics.get_health("kraken").is_none());
    assert!(metrics.get_health_status().is_empty());
    assert_eq!(metrics.message_count("kraken"), 0);
}

#[test]
fn reconnects_and_status_keep_the_other_fields() {
    let mut metrics = MarketMetrics::new();
    metrics.record_connection_status("okx", true);
    metrics.record_error("okx", "parse failure".to_string());
    metrics.record_reconnect("okx", 5_000);
    metrics.record_reconnect("okx", 6_000);
    metrics.record_connection_status("okx", false);
    let h = metrics.get_health("okx").unwrap();
    assert_eq!(
        h,
        ConnectionHealth {
            connected: false,
            last_reconnect: Some(6_000),
            last_reconnect_secs: Some(0),
            reconnect_count: 2,
            error_count: 1,
            last_error: Some("parse failure".to_string()),
        }
    );
    metrics.record_message("okx", 1);
    metrics.reset_message_counts();
    assert_eq!(metrics.message_count("okx"), 0);
    assert!(metrics.get_health("okx").is_some());
}
