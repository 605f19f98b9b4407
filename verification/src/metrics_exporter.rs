//! The counters that the logger exports to Prometheus, and the helpers that
//! record events in them.
use vstd::prelude::*;
use crate::metric_store::{
    description,
    ident_rest, valid_family,
    CounterFamily, counter_counts, counter_arity, counter_inc, label_view, MetricsError,
    registered_family, bumped,
};

verus! {

/// Position of each counter family in `ExporterMetrics::families`.
pub const EXCHANGE_MESSAGES: usize = 0;
pub const EXCHANGE_ERRORS: usize = 1;
pub const EXCHANGE_RECONNECTIONS: usize = 2;
pub const TRADES_PROCESSED: usize = 3;
pub const LARGE_TRADES: usize = 4;
pub const DATA_GAPS_DETECTED: usize = 5;
pub const PARSE_ERRORS: usize = 6;

/// The name, help text and label names of each exporter family, in the order
/// of the position constants.
pub open spec fn exporter_descriptions() -> Seq<(Seq<char>, Seq<char>, Seq<Seq<char>>)> {
    seq![
        ("gpu_charts_exchange_messages_total"@, "Total number of messages received from exchanges"@, seq!["exchange"@, "message_type"@]),
        ("gpu_charts_exchange_errors_total"@, "Total number of errors from exchanges"@, seq!["exchange"@, "error_type"@]),
        ("gpu_charts_exchange_reconnections_total"@, "Total number of reconnection attempts"@, seq!["exchange"@]),
        ("gpu_charts_trades_processed_total"@, "Total number of trades processed"@, seq!["exchange"@, "symbol"@]),
        ("gpu_charts_large_trades_total"@, "Total number of large trades detected (>$10k)"@, seq!["exchange"@, "symbol"@]),
        ("gpu_charts_data_gaps_detected_total"@, "Number of data gaps detected"@, seq!["exchange"@, "symbol"@]),
        ("gpu_charts_parse_errors_total"@, "Total number of parse errors"@, seq!["exchange"@, "data_type"@]),
    ]
}

/// The exporter's counter families.
pub struct ExporterMetrics {
    exchange_messages_total: CounterFamily,
    exchange_errors_total: CounterFamily,
    exchange_reconnections_total: CounterFamily,
    trades_processed_total: CounterFamily,
    large_trades_total: CounterFamily,
    data_gaps_detected: CounterFamily,
    parse_errors_total: CounterFamily,
}

impl ExporterMetrics {
    /// The counts of each family, in the order of the position constants.
    pub closed spec fn families(&self) -> Seq<Map<Seq<Seq<char>>, nat>> {
        seq![
            counter_counts(self.exchange_messages_total),
            counter_counts(self.exchange_errors_total),
            counter_counts(self.exchange_reconnections_total),
            counter_counts(self.trades_processed_total),
            counter_counts(self.large_trades_total),
            counter_counts(self.data_gaps_detected),
            counter_counts(self.parse_errors_total),
        ]
    }

    /// The name, help text and label names of each family, in the order of
    /// the position constants.
    pub closed spec fn descriptions(&self) -> Seq<(Seq<char>, Seq<char>, Seq<Seq<char>>)> {
        seq![
            description(self.exchange_messages_total),
            description(self.exchange_errors_total),
            description(self.exchange_reconnections_total),
            description(self.trades_processed_total),
            description(self.large_trades_total),
            description(self.data_gaps_detected),
            description(self.parse_errors_total),
        ]
    }

    /// Each family has the label names it was created with: the reconnection
    /// counter is labelled by exchange alone, the others by exchange and one more label.
    pub closed spec fn wf(&self) -> bool {
        &&& counter_arity(self.exchange_messages_total) == 2
        &&& counter_arity(self.exchange_errors_total) == 2
        &&& counter_arity(self.exchange_reconnections_total) == 1
        &&& counter_arity(self.trades_processed_total) == 2
        &&& counter_arity(self.large_trades_total) == 2
        &&& counter_arity(self.data_gaps_detected) == 2
        &&& counter_arity(self.parse_errors_total) == 2
        &&& self.descriptions() == exporter_descriptions()
    }

    /// Creates the exporter's counter families and registers them with the
    /// default registry.
    pub fn new() -> (r: Result<ExporterMetrics, MetricsError>)
        ensures
            r matches Ok(m) ==> m.wf() && m.families().len() == 7
                && forall|i: int| 0 <= i < 7 ==> #[trigger] m.families()[i] == Map::<Seq<Seq<char>>, nat>::empty(),
            r matches Ok(m) ==> m.descriptions() == exporter_descriptions(),
            !(r matches Err(MetricsError::Creation(_))),
            r matches Err(MetricsError::Registration(n)) ==> exists|i: int| 0 <= i < exporter_descriptions().len() && n@ == #[trigger] exporter_descriptions()[i].0,
    {
        let labels = ["exchange", "message_type"];
        proof {
            reveal_strlit("gpu_charts_exchange_messages_total");
            reveal_strlit("Total number of messages received from exchanges");
            reveal_strlit("exchange");
            reveal_strlit("message_type");
            reveal_with_fuel(ident_rest, 48);
            assert(label_view(labels@) =~= seq!["exchange"@, "message_type"@]);
            assert(valid_family("gpu_charts_exchange_messages_total"@, "Total number of messages received from exchanges"@, label_view(labels@)));
        }
        let exchange_messages_total = match registered_family("gpu_charts_exchange_messages_total", "Total number of messages received from exchanges", &labels) {
            Ok(c) => c,
            Err(e) => {
                assert(exporter_descriptions()[0].0 == "gpu_charts_exchange_messages_total"@);
                return Err(e);
            },
        };
        let labels = ["exchange", "error_type"];
        proof {
            reveal_strlit("gpu_charts_exchange_errors_total");
            reveal_strlit("Total number of errors from exchanges");
            reveal_strlit("exchange");
            reveal_strlit("error_type");
            reveal_with_fuel(ident_rest, 48);
            assert(label_view(labels@) =~= seq!["exchange"@, "error_type"@]);
            assert(valid_family("gpu_charts_exchange_errors_total"@, "Total number of errors from exchanges"@, label_view(labels@)));
        }
        let exchange_errors_total = match registered_family("gpu_charts_exchange_errors_total", "Total number of errors from exchanges", &labels) {
            Ok(c) => c,
            Err(e) => {
                assert(exporter_descriptions()[1].0 == "gpu_charts_exchange_errors_total"@);
                return Err(e);
            },
        };
        let labels = ["exchange"];
        proof {
            reveal_strlit("gpu_charts_exchange_reconnections_total");
            reveal_strlit("Total number of reconnection attempts");
            reveal_strlit("exchange");
            reveal_with_fuel(ident_rest, 48);
            assert(label_view(labels@) =~= seq!["exchange"@]);
            assert(valid_family("gpu_charts_exchange_reconnections_total"@, "Total number of reconnection attempts"@, label_view(labels@)));
        }
        let exchange_reconnections_total = match registered_family("gpu_charts_exchange_reconnections_total", "Total number of reconnection attempts", &labels) {
            Ok(c) => c,
            Err(e) => {
                assert(exporter_descriptions()[2].0 == "gpu_charts_exchange_reconnections_total"@);
                return Err(e);
            },
        };
        let labels = ["exchange", "symbol"];
        proof {
            reveal_strlit("gpu_charts_trades_processed_total");
            reveal_strlit("Total number of trades processed");
            reveal_strlit("exchange");
            reveal_strlit("symbol");
            reveal_with_fuel(ident_rest, 48);
            assert(label_view(labels@) =~= seq!["exchange"@, "symbol"@]);
            assert(valid_family("gpu_charts_trades_processed_total"@, "Total number of trades processed"@, label_view(labels@)));
        }
        let trades_processed_total = match registered_family("gpu_charts_trades_processed_total", "Total number of trades processed", &labels) {
            Ok(c) => c,
            Err(e) => {
                assert(exporter_descriptions()[3].0 == "gpu_charts_trades_processed_total"@);
                return Err(e);
            },
        };
        let labels = ["exchange", "symbol"];
        proof {
            reveal_strlit("gpu_charts_large_trades_total");
            reveal_strlit("Total number of large trades detected (>$10k)");
            reveal_strlit("exchange");
            reveal_strlit("symbol");
            reveal_with_fuel(ident_rest, 48);
            assert(label_view(labels@) =~= seq!["exchange"@, "symbol"@]);
            assert(valid_family("gpu_charts_large_trades_total"@, "Total number of large trades detected (>$10k)"@, label_view(labels@)));
        }
        let large_trades_total = match registered_family("gpu_charts_large_trades_total", "Total number of large trades detected (>$10k)", &labels) {
            Ok(c) => c,
            Err(e) => {
                assert(exporter_descriptions()[4].0 == "gpu_charts_large_trades_total"@);
                return Err(e);
            },
        };
        let labels = ["exchange", "symbol"];
        proof {
            reveal_strlit("gpu_charts_data_gaps_detected_total");
            reveal_strlit("Number of data gaps detected");
            reveal_strlit("exchange");
            reveal_strlit("symbol");
            reveal_with_fuel(ident_rest, 48);
            assert(label_view(labels@) =~= seq!["exchange"@, "symbol"@]);
            assert(valid_family("gpu_charts_data_gaps_detected_total"@, "Number of data gaps detected"@, label_view(labels@)));
        }
        let data_gaps_detected = match registered_family("gpu_charts_data_gaps_detected_total", "Number of data gaps detected", &labels) {
            Ok(c) => c,
            Err(e) => {
                assert(exporter_descriptions()[5].0 == "gpu_charts_data_gaps_detected_total"@);
                return Err(e);
            },
        };
        let labels = ["exchange", "data_type"];
        proof {
            reveal_strlit("gpu_charts_parse_errors_total");
            reveal_strlit("Total number of parse errors");
            reveal_strlit("exchange");
            reveal_strlit("data_type");
            reveal_with_fuel(ident_rest, 48);
            assert(label_view(labels@) =~= seq!["exchange"@, "data_type"@]);
            assert(valid_family("gpu_charts_parse_errors_total"@, "Total number of parse errors"@, label_view(labels@)));
        }
        let parse_errors_total = match registered_family("gpu_charts_parse_errors_total", "Total number of parse errors", &labels) {
            Ok(c) => c,
            Err(e) => {
                assert(exporter_descriptions()[6].0 == "gpu_charts_parse_errors_total"@);
                return Err(e);
            },
        };
        Ok(ExporterMetrics {
            exchange_messages_total,
            exchange_errors_total,
            exchange_reconnections_total,
            trades_processed_total,
            large_trades_total,
            data_gaps_detected,
            parse_errors_total,
        })
    }
}

/// Counts a message of `message_type` from `exchange`.
pub fn record_message(metrics: &mut ExporterMetrics, exchange: &str, message_type: &str)
    requires
        old(metrics).wf(),
    ensures
        final(metrics).wf(),
        bumped(old(metrics).families(), final(metrics).families(), EXCHANGE_MESSAGES as int, seq![exchange@, message_type@]),
{
    let labels = [exchange, message_type];
    assert(label_view(labels@) =~= seq![exchange@, message_type@]);
    counter_inc(&mut metrics.exchange_messages_total, &labels);
    assert(final(metrics).families() =~= old(metrics).families().update(EXCHANGE_MESSAGES as int, final(metrics).families()[EXCHANGE_MESSAGES as int]));
}

/// Counts an error of `error_type` from `exchange`.
pub fn record_error(metrics: &mut ExporterMetrics, exchange: &str, error_type: &str)
    requires
        old(metrics).wf(),
    ensures
        final(metrics).wf(),
        bumped(old(metrics).families(), final(metrics).families(), EXCHANGE_ERRORS as int, seq![exchange@, error_type@]),
{
    let labels = [exchange, error_type];
    assert(label_view(labels@) =~= seq![exchange@, error_type@]);
    counter_inc(&mut metrics.exchange_errors_total, &labels);
    assert(final(metrics).families() =~= old(metrics).families().update(EXCHANGE_ERRORS as int, final(metrics).families()[EXCHANGE_ERRORS as int]));
}

/// Counts a reconnection attempt to `exchange`.
pub fn record_reconnection(metrics: &mut ExporterMetrics, exchange: &str)
    requires
        old(metrics).wf(),
    ensures
        final(metrics).wf(),
        bumped(old(metrics).families(), final(metrics).families(), EXCHANGE_RECONNECTIONS as int, seq![exchange@]),
{
    let labels = [exchange];
    assert(label_view(labels@) =~= seq![exchange@]);
    counter_inc(&mut metrics.exchange_reconnections_total, &labels);
    assert(final(metrics).families() =~= old(metrics).families().update(EXCHANGE_RECONNECTIONS as int, final(metrics).families()[EXCHANGE_RECONNECTIONS as int]));
}

/// Counts a processed trade of `symbol` on `exchange`.
pub fn record_trade(metrics: &mut ExporterMetrics, exchange: &str, symbol: &str)
    requires
        old(metrics).wf(),
    ensures
        final(metrics).wf(),
        bumped(old(metrics).families(), final(metrics).families(), TRADES_PROCESSED as int, seq![exchange@, symbol@]),
{
    let labels = [exchange, symbol];
    assert(label_view(labels@) =~= seq![exchange@, symbol@]);
    counter_inc(&mut metrics.trades_processed_total, &labels);
    assert(final(metrics).families() =~= old(metrics).families().update(TRADES_PROCESSED as int, final(metrics).families()[TRADES_PROCESSED as int]));
}

/// Counts a large trade (over $10k) of `symbol` on `exchange`.
pub fn record_large_trade(metrics: &mut ExporterMetrics, exchange: &str, symbol: &str)
    requires
        old(metrics).wf(),
    ensures
        final(metrics).wf(),
        bumped(old(metrics).families(), final(metrics).families(), LARGE_TRADES as int, seq![exchange@, symbol@]),
{
    let labels = [exchange, symbol];
    assert(label_view(labels@) =~= seq![exchange@, symbol@]);
    counter_inc(&mut metrics.large_trades_total, &labels);
    assert(final(metrics).families() =~= old(metrics).families().update(LARGE_TRADES as int, final(metrics).families()[LARGE_TRADES as int]));
}

/// Counts a gap detected in the data of `symbol` on `exchange`.
pub fn record_data_gap(metrics: &mut ExporterMetrics, exchange: &str, symbol: &str)
    requires
        old(metrics).wf(),
    ensures
        final(metrics).wf(),
        bumped(old(metrics).families(), final(metrics).families(), DATA_GAPS_DETECTED as int, seq![exchange@, symbol@]),
{
    let labels = [exchange, symbol];
    assert(label_view(labels@) =~= seq![exchange@, symbol@]);
    counter_inc(&mut metrics.data_gaps_detected, &labels);
    assert(final(metrics).families() =~= old(metrics).families().update(DATA_GAPS_DETECTED as int, final(metrics).families()[DATA_GAPS_DETECTED as int]));
}

/// Counts a failure to parse data of `data_type` from `exchange`.
pub fn record_parse_error(metrics: &mut ExporterMetrics, exchange: &str, data_type: &str)
    requires
        old(metrics).wf(),
    ensures
        final(metrics).wf(),
        bumped(old(metrics).families(), final(metrics).families(), PARSE_ERRORS as int, seq![exchange@, data_type@]),
{
    let labels = [exchange, data_type];
    assert(label_view(labels@) =~= seq![exchange@, data_type@]);
    counter_inc(&mut metrics.parse_errors_total, &labels);
    assert(final(metrics).families() =~= old(metrics).families().update(PARSE_ERRORS as int, final(metrics).families()[PARSE_ERRORS as int]));
}

} // verus!
