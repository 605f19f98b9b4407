use gpu_charts::config::Config;

#[test]
fn test_config_loading() {
    // Test default config
    let config = Config::default();
    assert_eq!(config.logger.data_path.as_str(), "/mnt/md/data");
    assert_eq!(config.logger.buffer_size, 8192);
    assert_eq!(config.logger.flush_interval_secs, 5);
    assert_eq!(config.logger.health_check_port, 8080);

    assert!(config.exchanges.coinbase.enabled);
    assert!(config.exchanges.binance.enabled);

    assert_eq!(config.exchanges.coinbase.max_connections, 10);
    assert_eq!(config.exchanges.binance.max_connections, 5);

    assert_eq!(config.exchanges.coinbase.symbols_per_connection, 50);
    assert_eq!(config.exchanges.binance.symbols_per_connection, 100);
}

#[test]
fn default_exchange_endpoints_and_pings() {
    let config = Config::default();
    let ex = &config.exchanges;
    assert_eq!(ex.okx.ws_endpoint, "wss://ws.okx.com:8443/ws/v5/public");
    assert_eq!(ex.kraken.rest_endpoint, "https://api.kraken.com/0");
    assert_eq!(ex.bitfinex.symbols_per_connection, 15);
    assert_eq!(ex.coinbase.ping_interval_secs, None);
    assert_eq!(ex.binance.ping_interval_secs, Some(20));
    assert_eq!(ex.okx.ping_interval_secs, Some(30));
    assert_eq!(ex.kraken.ping_interval_secs, Some(60));
    assert_eq!(ex.bitfinex.ping_interval_secs, Some(15));
    for e in [&ex.coinbase, &ex.binance, &ex.okx, &ex.kraken, &ex.bitfinex] {
        assert_eq!(e.reconnect_delay_secs, 1);
        assert_eq!(e.max_reconnect_delay_secs, 60);
        assert!(e.symbols.is_none());
    }
}
