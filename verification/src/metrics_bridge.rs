//! Glue between the logger's event sources and its metrics: error
//! categorisation and the recording helpers used by the writers.
use vstd::prelude::*;
use crate::text::{seq_contains_sub, str_contains};
use crate::market_metrics::{MarketMetrics, ConnectionHealth};
use crate::metrics_server::{ServerMetrics, MESSAGES, ERRORS, RECONNECTIONS};
use crate::metric_store::bumped;

verus! {

/// The category under which an error message is counted: the first of
/// "connection", "parse", "timeout" and "subscription" whose keywords occur in
/// it, else "other".
pub open spec fn error_category(error: Seq<char>) -> Seq<char> {
    if seq_contains_sub(error, "Connection"@) || seq_contains_sub(error, "connect"@) {
        "connection"@
    } else if seq_contains_sub(error, "parse"@) || seq_contains_sub(error, "Parse"@) {
        "parse"@
    } else if seq_contains_sub(error, "timeout"@) || seq_contains_sub(error, "Timeout"@) {
        "timeout"@
    } else if seq_contains_sub(error, "subscribe"@) || seq_contains_sub(error, "Subscribe"@) {
        "subscription"@
    } else {
        "other"@
    }
}

/// Categorises an error message for the error counters.
pub fn categorize_error(error: &str) -> (r: &'static str)
    ensures
        r@ == error_category(error@),
{
    if str_contains(error, "Connection") || str_contains(error, "connect") {
        "connection"
    } else if str_contains(error, "parse") || str_contains(error, "Parse") {
        "parse"
    } else if str_contains(error, "timeout") || str_contains(error, "Timeout") {
        "timeout"
    } else if str_contains(error, "subscribe") || str_contains(error, "Subscribe") {
        "subscription"
    } else {
        "other"
    }
}

/// Buffer sizes are not tracked by the metrics endpoint: this records nothing.
pub fn record_buffer_metrics(_exchange: &str, _buffer_type: &str, _size: usize) {
}

/// Written data is not tracked by the metrics endpoint: this records nothing.
pub fn record_data_write(_exchange: &str, _data_type: &str, _bytes: usize) {
}

/// WebSocket connection counts are not tracked by the metrics endpoint: this
/// records nothing.
pub fn set_active_connections(_exchange: &str, _count: usize) {
}

/// Counts a market-data message from `exchange` at the endpoint. (The
/// endpoint keeps no price extremes.)
pub fn process_market_data(metrics: &mut ServerMetrics, exchange: &str)
    requires
        old(metrics).wf(),
    ensures
        final(metrics).wf(),
        bumped(old(metrics).families(), final(metrics).families(), MESSAGES as int, seq![exchange@, "market_data"@]),
{
    crate::metrics_server::record_message(metrics, exchange, "market_data");
}

/// The endpoint counters after a trade from `exchange`: the "trade" message
/// counter incremented twice (once as a trade, once as a message), then the
/// "large_trade" counter once more for a large trade.
pub open spec fn trade_counted(
    before: Seq<Map<Seq<Seq<char>>, nat>>,
    mid1: Seq<Map<Seq<Seq<char>>, nat>>,
    mid2: Seq<Map<Seq<Seq<char>>, nat>>,
    after: Seq<Map<Seq<Seq<char>>, nat>>,
    exchange: Seq<char>,
    is_large: bool,
) -> bool {
    &&& bumped(before, mid1, MESSAGES as int, seq![exchange, "trade"@])
    &&& bumped(mid1, mid2, MESSAGES as int, seq![exchange, "trade"@])
    &&& if is_large { bumped(mid2, after, MESSAGES as int, seq![exchange, "large_trade"@]) } else { after == mid2 }
}

/// Counts a trade from `exchange` at the endpoint: as a trade, as a "trade"
/// message and, when `is_large` (the caller found its value in the quote
/// currency, price times size, above 10 000), as a large trade.
pub fn process_trade_data(metrics: &mut ServerMetrics, exchange: &str, symbol: &str, is_large: bool)
    requires
        old(metrics).wf(),
    ensures
        final(metrics).wf(),
        exists|mid1: Seq<Map<Seq<Seq<char>>, nat>>, mid2: Seq<Map<Seq<Seq<char>>, nat>>|
            #[trigger] trade_counted(old(metrics).families(), mid1, mid2, final(metrics).families(), exchange@, is_large),
{
    let ghost before = metrics.families();
    crate::metrics_server::record_trade(metrics, exchange, symbol);
    let ghost mid1 = metrics.families();
    crate::metrics_server::record_message(metrics, exchange, "trade");
    let ghost mid2 = metrics.families();
    if is_large {
        crate::metrics_server::record_large_trade(metrics, exchange, symbol);
    }
    assert(trade_counted(before, mid1, mid2, metrics.families(), exchange@, is_large));
}

/// Records connection events both in the market metrics and in the
/// counters of the metrics endpoint.
pub struct MetricsBridge {
    market_metrics: MarketMetrics,
    metrics: ServerMetrics,
}

impl MetricsBridge {
    /// The market metrics.
    pub closed spec fn market(&self) -> MarketMetrics {
        self.market_metrics
    }

    /// The endpoint counters.
    pub closed spec fn counters(&self) -> Seq<Map<Seq<Seq<char>>, nat>> {
        self.metrics.families()
    }

    /// The endpoint counters have their label names.
    pub closed spec fn wf(&self) -> bool {
        self.metrics.wf()
    }

    /// A bridge over the given market metrics and endpoint counters.
    pub fn new(market_metrics: MarketMetrics, metrics: ServerMetrics) -> (r: MetricsBridge)
        requires
            metrics.wf(),
        ensures
            r.wf(),
            r.market() == market_metrics,
            r.counters() == metrics.families(),
    {
        MetricsBridge { market_metrics, metrics }
    }

    /// Counts a message from `exchange` at `now`: in the market metrics, and
    /// as a "data" message at the endpoint.
    pub fn record_message(&mut self, exchange: &str, now: u64)
        requires
            old(self).wf(),
            !old(self).market().message_counts().contains_key(exchange@) || old(self).market().message_counts()[exchange@] < u64::MAX,
        ensures
            final(self).wf(),
            final(self).market().message_counts() == old(self).market().message_counts().insert(
                exchange@,
                (if old(self).market().message_counts().contains_key(exchange@) { old(self).market().message_counts()[exchange@] + 1 } else { 1 }) as u64,
            ),
            final(self).market().message_times() == old(self).market().message_times().insert(exchange@, now),
            final(self).market().health() == old(self).market().health(),
            bumped(old(self).counters(), final(self).counters(), MESSAGES as int, seq![exchange@, "data"@]),
    {
        self.market_metrics.record_message(exchange, now);
        crate::metrics_server::record_message(&mut self.metrics, exchange, "data");
    }

    /// Records whether `exchange` is connected in the market metrics. (The
    /// endpoint's connection gauge holds a float and is set by the caller.)
    pub fn record_connection_status(&mut self, exchange: &str, connected: bool)
        requires
            old(self).wf(),
        ensures
            final(self).wf(),
            final(self).market().health() == old(self).market().health().insert(
                exchange@,
                if old(self).market().health().contains_key(exchange@) {
                    ConnectionHealth { connected, ..old(self).market().health()[exchange@] }
                } else {
                    crate::market_metrics::fresh_health(connected)
                },
            ),
            final(self).market().message_counts() == old(self).market().message_counts(),
            final(self).counters() == old(self).counters(),
    {
        self.market_metrics.record_connection_status(exchange, connected);
    }

    /// Counts a reconnection of `exchange` at `now`, in both places.
    pub fn record_reconnect(&mut self, exchange: &str, now: u64)
        requires
            old(self).wf(),
            old(self).market().health().contains_key(exchange@) ==> old(self).market().health()[exchange@].reconnect_count < u32::MAX,
        ensures
            final(self).wf(),
            old(self).market().health().contains_key(exchange@) ==> final(self).market().health() == old(self).market().health().insert(
                exchange@,
                ConnectionHealth {
                    last_reconnect: Some(now),
                    last_reconnect_secs: Some(0),
                    reconnect_count: (old(self).market().health()[exchange@].reconnect_count + 1) as u32,
                    ..old(self).market().health()[exchange@]
                },
            ),
            !old(self).market().health().contains_key(exchange@) ==> final(self).market().health() == old(self).market().health(),
            bumped(old(self).counters(), final(self).counters(), RECONNECTIONS as int, seq![exchange@]),
    {
        self.market_metrics.record_reconnect(exchange, now);
        crate::metrics_server::record_reconnection(&mut self.metrics, exchange);
    }

    /// Records an error of `exchange`: its message in the market metrics, and
    /// its category at the endpoint.
    pub fn record_error(&mut self, exchange: &str, error: String)
        requires
            old(self).wf(),
            old(self).market().health().contains_key(exchange@) ==> old(self).market().health()[exchange@].error_count < u32::MAX,
        ensures
            final(self).wf(),
            old(self).market().health().contains_key(exchange@) ==> final(self).market().health() == old(self).market().health().insert(
                exchange@,
                ConnectionHealth {
                    error_count: (old(self).market().health()[exchange@].error_count + 1) as u32,
                    last_error: Some(error),
                    ..old(self).market().health()[exchange@]
                },
            ),
            !old(self).market().health().contains_key(exchange@) ==> final(self).market().health() == old(self).market().health(),
            bumped(old(self).counters(), final(self).counters(), ERRORS as int, seq![exchange@, error_category(error@)]),
    {
        let category = categorize_error(error.as_str());
        self.market_metrics.record_error(exchange, error);
        crate::metrics_server::record_error(&mut self.metrics, exchange, category);
    }

    /// The market metrics.
    pub fn inner(&self) -> (r: &MarketMetrics)
        ensures
            *r == self.market(),
    {
        &self.market_metrics
    }
}

} // verus!
