use gpu_charts::exchanges::{
    after_read, build_stream_url, coinbase_after_read, distribute_symbols, steady_after_read, FIXED_RETRY_SECS, subscription_channels, tradable_symbols, Channel, ReadAction,
    ReadOutcome, ReconnectPolicy,
};

#[test]
fn test_distribute_symbols() {
    let symbols: Vec<String> = (0..25).map(|i| format!("SYM{}", i)).collect();
    let distributions = distribute_symbols(symbols, 10);

    assert_eq!(distributions.len(), 3);
    assert_eq!(distributions[0].len(), 10);
    assert_eq!(distributions[1].len(), 10);
    assert_eq!(distributions[2].len(), 5);
}

#[test]
fn test_symbol_distribution() {
    let symbols: Vec<String> = (0..255).map(|i| format!("SYMBOL{i}")).collect();
    let distributions = distribute_symbols(symbols.clone(), 50);

    // Should have 6 batches (5 full + 1 partial)
    assert_eq!(distributions.len(), 6);

    // First 5 should be full
    for distribution in distributions.iter().take(5) {
        assert_eq!(distribution.len(), 50);
    }

    // Last should have remaining 5
    assert_eq!(distributions[5].len(), 5);

    // Verify all symbols are included
    let mut all_symbols = Vec::new();
    for batch in distributions {
        all_symbols.extend(batch);
    }
    assert_eq!(all_symbols.len(), 255);
}

#[test]
fn test_stream_url_building() {
    let symbols = vec!["BTCUSDT".to_string(), "ETHUSDT".to_string()];
    let url = build_stream_url("wss://stream.binance.com:9443", &symbols, &[Channel::Ticker, Channel::Trades]);
    assert_eq!(
        url,
        "wss://stream.binance.com:9443/stream?streams=btcusdt@ticker/btcusdt@trade/ethusdt@ticker/ethusdt@trade"
    );
}

#[test]
fn batching_keeps_order_and_handles_edges() {
    let symbols: Vec<String> = (0..6).map(|i| format!("S{i}")).collect();
    let batches = distribute_symbols(symbols.clone(), 3);
    assert_eq!(batches, vec![symbols[0..3].to_vec(), symbols[3..6].to_vec()]);
    assert!(distribute_symbols(Vec::new(), 10).is_empty());
    // A zero limit still places one symbol per connection.
    let one_each = distribute_symbols(symbols.clone(), 0);
    assert_eq!(one_each.len(), 6);
    assert!(one_each.iter().all(|b| b.len() == 1));
    assert_eq!(one_each.concat(), symbols);
}

#[test]
fn order_book_streams_and_empty_lists() {
    let symbols = vec!["BnbBtc".to_string()];
    assert_eq!(build_stream_url("wss://x", &symbols, &[Channel::OrderBook]), "wss://x/stream?streams=bnbbtc@depth");
    assert_eq!(build_stream_url("wss://x", &[], &[Channel::Ticker]), "wss://x/stream?streams=");
    assert_eq!(build_stream_url("wss://x", &symbols, &[]), "wss://x/stream?streams=");
}

#[test]
fn failures_double_the_wait_then_pause() {
    let mut policy = ReconnectPolicy::new();
    let waits: Vec<u64> = (0..9).map(|_| policy.on_connect_failed()).collect();
    assert_eq!(waits, vec![1, 2, 4, 8, 16, 32, 60, 60, 60]);
    assert_eq!(policy.consecutive_failures, 9);
    // The tenth failure in a row waits five minutes and starts over.
    assert_eq!(policy.on_connect_failed(), 300);
    assert_eq!(policy, ReconnectPolicy::new());
}

#[test]
fn success_resets_and_drops_keep_doubling() {
    let mut policy = ReconnectPolicy::new();
    policy.on_connect_failed();
    policy.on_connect_failed();
    policy.on_connected();
    assert_eq!(policy, ReconnectPolicy { consecutive_failures: 0, backoff_secs: 1 });
    assert_eq!(policy.on_disconnected(), 1);
    assert_eq!(policy.on_disconnected(), 2);
    assert_eq!(policy.backoff_secs, 4);
    assert_eq!(policy.consecutive_failures, 0);
}

#[test]
fn read_loop_decisions() {
    assert_eq!(after_read(ReadOutcome::Message, 500, 60), ReadAction::CountMessage);
    assert_eq!(after_read(ReadOutcome::Nothing, 500, 60), ReadAction::Continue);
    assert_eq!(after_read(ReadOutcome::Error, 0, 60), ReadAction::RecordErrorAndDisconnect);
    assert_eq!(after_read(ReadOutcome::TimedOut, 60, 60), ReadAction::Continue);
    assert_eq!(after_read(ReadOutcome::TimedOut, 61, 60), ReadAction::Disconnect);
    assert_eq!(after_read(ReadOutcome::TimedOut, 90, 120), ReadAction::Continue);
}

#[test]
fn coinbase_subscriptions_add_the_heartbeat() {
    assert_eq!(subscription_channels(&[Channel::Ticker, Channel::Trades]), vec!["ticker", "matches", "heartbeat"]);
    assert_eq!(subscription_channels(&[Channel::OrderBook]), vec!["level2", "heartbeat"]);
    assert_eq!(subscription_channels(&[]), vec!["heartbeat"]);
}

#[test]
fn only_products_with_the_active_status_are_tradable() {
    let listed = vec![
        ("BTCUSDT".to_string(), "TRADING".to_string()),
        ("LUNAUSDT".to_string(), "BREAK".to_string()),
        ("ETHUSDT".to_string(), "TRADING".to_string()),
        ("XYZUSDT".to_string(), "trading".to_string()),
    ];
    assert_eq!(tradable_symbols(&listed, "TRADING"), vec!["BTCUSDT".to_string(), "ETHUSDT".to_string()]);
    assert_eq!(tradable_symbols(&listed, "online"), Vec::<String>::new());
    assert_eq!(tradable_symbols(&Vec::new(), "online"), Vec::<String>::new());
}

#[test]
fn coinbase_reading_loop_decisions() {
    assert_eq!(coinbase_after_read(ReadOutcome::Message, 500), ReadAction::CountMessage);
    assert_eq!(coinbase_after_read(ReadOutcome::Nothing, 0), ReadAction::Disconnect);
    assert_eq!(coinbase_after_read(ReadOutcome::Error, 0), ReadAction::RecordErrorAndDisconnect);
    assert_eq!(coinbase_after_read(ReadOutcome::TimedOut, 120), ReadAction::Continue);
    assert_eq!(coinbase_after_read(ReadOutcome::TimedOut, 121), ReadAction::RecordTimeoutAndDisconnect);
}

#[test]
fn steady_reading_loop_decisions() {
    assert_eq!(steady_after_read(ReadOutcome::Message), ReadAction::CountMessage);
    assert_eq!(steady_after_read(ReadOutcome::Nothing), ReadAction::Disconnect);
    assert_eq!(steady_after_read(ReadOutcome::Error), ReadAction::RecordErrorAndDisconnect);
    assert_eq!(steady_after_read(ReadOutcome::TimedOut), ReadAction::Continue);
    assert_eq!(FIXED_RETRY_SECS, 5);
}
