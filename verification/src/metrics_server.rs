//! The counters served on the logger's metrics endpoint, and the helpers that
//! update them.
use vstd::prelude::*;
use crate::metric_store::{
    description,
    ident_rest, valid_family,
    CounterFamily, counter_counts, counter_arity, counter_inc, label_view, MetricsError,
    registered_family, bumped,
};

verus! {

/// Position of each counter family in `ServerMetrics::families`.
pub const MESSAGES: usize = 0;
pub const ERRORS: usize = 1;
pub const RECONNECTIONS: usize = 2;
pub const DATA_GAPS: usize = 3;

/// The name, help text and label names of each endpoint family, in the order
/// of the position constants.
pub open spec fn server_descriptions() -> Seq<(Seq<char>, Seq<char>, Seq<Seq<char>>)> {
    seq![
        ("gpu_charts_exchange_messages_total"@, "Total messages received from each exchange"@, seq!["exchange"@, "message_type"@]),
        ("gpu_charts_exchange_errors_total"@, "Total errors by exchange and type"@, seq!["exchange"@, "error_type"@]),
        ("gpu_charts_exchange_reconnections_total"@, "Total reconnection attempts"@, seq!["exchange"@]),
        ("gpu_charts_data_gaps_total"@, "Total data gaps detected"@, seq!["exchange"@, "symbol"@]),
    ]
}

/// The counter families of the metrics endpoint.
pub struct ServerMetrics {
    exchange_messages_total: CounterFamily,
    exchange_errors_total: CounterFamily,
    exchange_reconnections_total: CounterFamily,
    data_gaps_total: CounterFamily,
}

impl ServerMetrics {
    /// The counts of each family, in the order of the position constants.
    pub closed spec fn families(&self) -> Seq<Map<Seq<Seq<char>>, nat>> {
        seq![
            counter_counts(self.exchange_messages_total),
            counter_counts(self.exchange_errors_total),
            counter_counts(self.exchange_reconnections_total),
            counter_counts(self.data_gaps_total),
        ]
    }

    /// The name, help text and label names of each family, in the order of
    /// the position constants.
    pub closed spec fn descriptions(&self) -> Seq<(Seq<char>, Seq<char>, Seq<Seq<char>>)> {
        seq![
            description(self.exchange_messages_total),
            description(self.exchange_errors_total),
            description(self.exchange_reconnections_total),
            description(self.data_gaps_total),
        ]
    }

    /// Each family has the label names it was created with: reconnections
    /// are labelled by exchange alone, the others by exchange and one more label.
    pub closed spec fn wf(&self) -> bool {
        &&& counter_arity(self.exchange_messages_total) == 2
        &&& counter_arity(self.exchange_errors_total) == 2
        &&& counter_arity(self.exchange_reconnections_total) == 1
        &&& counter_arity(self.data_gaps_total) == 2
        &&& self.descriptions() == server_descriptions()
    }

    /// Creates the endpoint's counter families and registers them with the
    /// default registry.
    pub fn new() -> (r: Result<ServerMetrics, MetricsError>)
        ensures
            r matches Ok(m) ==> m.wf() && m.families().len() == 4
                && forall|i: int| 0 <= i < 4 ==> #[trigger] m.families()[i] == Map::<Seq<Seq<char>>, nat>::empty(),
            r matches Ok(m) ==> m.descriptions() == server_descriptions(),
            !(r matches Err(MetricsError::Creation(_))),
            r matches Err(MetricsError::Registration(n)) ==> exists|i: int| 0 <= i < server_descriptions().len() && n@ == #[trigger] server_descriptions()[i].0,
    {
        let labels = ["exchange", "message_type"];
        proof {
            reveal_strlit("gpu_charts_exchange_messages_total");
            reveal_strlit("Total messages received from each exchange");
            reveal_strlit("exchange");
            reveal_strlit("message_type");
            reveal_with_fuel(ident_rest, 48);
            assert(label_view(labels@) =~= seq!["exchange"@, "message_type"@]);
            assert(valid_family("gpu_charts_exchange_messages_total"@, "Total messages received from each exchange"@, label_view(labels@)));
        }
        let exchange_messages_total = match registered_family("gpu_charts_exchange_messages_total", "Total messages received from each exchange", &labels) {
            Ok(c) => c,
            Err(e) => {
                assert(server_descriptions()[0].0 == "gpu_charts_exchange_messages_total"@);
                return Err(e);
            },
        };
        let labels = ["exchange", "error_type"];
        proof {
            reveal_strlit("gpu_charts_exchange_errors_total");
            reveal_strlit("Total errors by exchange and type");
            reveal_strlit("exchange");
            reveal_strlit("error_type");
            reveal_with_fuel(ident_rest, 48);
            assert(label_view(labels@) =~= seq!["exchange"@, "error_type"@]);
            assert(valid_family("gpu_charts_exchange_errors_total"@, "Total errors by exchange and type"@, label_view(labels@)));
        }
        let exchange_errors_total = match registered_family("gpu_charts_exchange_errors_total", "Total errors by exchange and type", &labels) {
            Ok(c) => c,
            Err(e) => {
                assert(server_descriptions()[1].0 == "gpu_charts_exchange_errors_total"@);
                return Err(e);
            },
        };
        let labels = ["exchange"];
        proof {
            reveal_strlit("gpu_charts_exchange_reconnections_total");
            reveal_strlit("Total reconnection attempts");
            reveal_strlit("exchange");
            reveal_with_fuel(ident_rest, 48);
            assert(label_view(labels@) =~= seq!["exchange"@]);
            assert(valid_family("gpu_charts_exchange_reconnections_total"@, "Total reconnection attempts"@, label_view(labels@)));
        }
        let exchange_reconnections_total = match registered_family("gpu_charts_exchange_reconnections_total", "Total reconnection attempts", &labels) {
            Ok(c) => c,
            Err(e) => {
                assert(server_descriptions()[2].0 == "gpu_charts_exchange_reconnections_total"@);
                return Err(e);
            },
        };
        let labels = ["exchange", "symbol"];
        proof {
            reveal_strlit("gpu_charts_data_gaps_total");
            reveal_strlit("Total data gaps detected");
            reveal_strlit("exchange");
            reveal_strlit("symbol");
            reveal_with_fuel(ident_rest, 48);
            assert(label_view(labels@) =~= seq!["exchange"@, "symbol"@]);
            assert(valid_family("gpu_charts_data_gaps_total"@, "Total data gaps detected"@, label_view(labels@)));
        }
        let data_gaps_total = match registered_family("gpu_charts_data_gaps_total", "Total data gaps detected", &labels) {
            Ok(c) => c,
            Err(e) => {
                assert(server_descriptions()[3].0 == "gpu_charts_data_gaps_total"@);
                return Err(e);
            },
        };
        Ok(ServerMetrics { exchange_messages_total, exchange_errors_total, exchange_reconnections_total, data_gaps_total })
    }
}

/// Counts a message of `message_type` from `exchange`.
pub fn increment_message_count(metrics: &mut ServerMetrics, exchange: &str, message_type: &str)
    requires
        old(metrics).wf(),
    ensures
        final(metrics).wf(),
        bumped(old(metrics).families(), final(metrics).families(), MESSAGES as int, seq![exchange@, message_type@]),
{
    let labels = [exchange, message_type];
    assert(label_view(labels@) =~= seq![exchange@, message_type@]);
    counter_inc(&mut metrics.exchange_messages_total, &labels);
    assert(final(metrics).families() =~= old(metrics).families().update(MESSAGES as int, final(metrics).families()[MESSAGES as int]));
}

/// Counts an error of `error_type` from `exchange`.
pub fn increment_error_count(metrics: &mut ServerMetrics, exchange: &str, error_type: &str)
    requires
        old(metrics).wf(),
    ensures
        final(metrics).wf(),
        bumped(old(metrics).families(), final(metrics).families(), ERRORS as int, seq![exchange@, error_type@]),
{
    let labels = [exchange, error_type];
    assert(label_view(labels@) =~= seq![exchange@, error_type@]);
    counter_inc(&mut metrics.exchange_errors_total, &labels);
    assert(final(metrics).families() =~= old(metrics).families().update(ERRORS as int, final(metrics).families()[ERRORS as int]));
}

/// Counts a reconnection attempt to `exchange`.
pub fn increment_reconnection_count(metrics: &mut ServerMetrics, exchange: &str)
    requires
        old(metrics).wf(),
    ensures
        final(metrics).wf(),
        bumped(old(metrics).families(), final(metrics).families(), RECONNECTIONS as int, seq![exchange@]),
{
    let labels = [exchange];
    assert(label_view(labels@) =~= seq![exchange@]);
    counter_inc(&mut metrics.exchange_reconnections_total, &labels);
    assert(final(metrics).families() =~= old(metrics).families().update(RECONNECTIONS as int, final(metrics).families()[RECONNECTIONS as int]));
}

/// Counts a gap detected in the data of `symbol` on `exchange`.
pub fn increment_data_gap(metrics: &mut ServerMetrics, exchange: &str, symbol: &str)
    requires
        old(metrics).wf(),
    ensures
        final(metrics).wf(),
        bumped(old(metrics).families(), final(metrics).families(), DATA_GAPS as int, seq![exchange@, symbol@]),
{
    let labels = [exchange, symbol];
    assert(label_view(labels@) =~= seq![exchange@, symbol@]);
    counter_inc(&mut metrics.data_gaps_total, &labels);
    assert(final(metrics).families() =~= old(metrics).families().update(DATA_GAPS as int, final(metrics).families()[DATA_GAPS as int]));
}

/// Counts a message of `message_type` from `exchange`.
pub fn record_message(metrics: &mut ServerMetrics, exchange: &str, message_type: &str)
    requires
        old(metrics).wf(),
    ensures
        final(metrics).wf(),
        bumped(old(metrics).families(), final(metrics).families(), MESSAGES as int, seq![exchange@, message_type@]),
{
    increment_message_count(metrics, exchange, message_type);
}

/// Counts an error of `error_type` from `exchange`.
pub fn record_error(metrics: &mut ServerMetrics, exchange: &str, error_type: &str)
    requires
        old(metrics).wf(),
    ensures
        final(metrics).wf(),
        bumped(old(metrics).families(), final(metrics).families(), ERRORS as int, seq![exchange@, error_type@]),
{
    increment_error_count(metrics, exchange, error_type);
}

/// Counts a reconnection attempt to `exchange`.
pub fn record_reconnection(metrics: &mut ServerMetrics, exchange: &str)
    requires
        old(metrics).wf(),
    ensures
        final(metrics).wf(),
        bumped(old(metrics).families(), final(metrics).families(), RECONNECTIONS as int, seq![exchange@]),
{
    increment_reconnection_count(metrics, exchange);
}

/// Counts a trade on `exchange`, as a message of type "trade"; the symbol is
/// not recorded.
pub fn record_trade(metrics: &mut ServerMetrics, exchange: &str, _symbol: &str)
    requires
        old(metrics).wf(),
    ensures
        final(metrics).wf(),
        bumped(old(metrics).families(), final(metrics).families(), MESSAGES as int, seq![exchange@, "trade"@]),
{
    increment_message_count(metrics, exchange, "trade");
}

/// Counts a large trade on `exchange`, as a message of type "large_trade";
/// the symbol is not recorded.
pub fn record_large_trade(metrics: &mut ServerMetrics, exchange: &str, _symbol: &str)
    requires
        old(metrics).wf(),
    ensures
        final(metrics).wf(),
        bumped(old(metrics).families(), final(metrics).families(), MESSAGES as int, seq![exchange@, "large_trade"@]),
{
    increment_message_count(metrics, exchange, "large_trade");
}

/// Written data is not tracked by the endpoint: this records nothing.
pub fn record_data_written(_exchange: &str, _data_type: &str, _bytes: u64) {
}

} // verus!
