//! Verified core of the GPU Charts market-data logger and chart runtime:
//! the exchange data model, timestamp and back-off arithmetic, symbol batching,
//! reconnection policy, metric recording, error recovery, lifecycle control and
//! the render-loop state machines.
use vstd::prelude::*;

pub mod text;
pub mod data_types;
pub mod utils;
pub mod render_loop;
pub mod simplified_render_loop;
pub mod immediate_update;
pub mod integration_error;
pub mod lifecycle;
pub mod error_recovery;
pub mod metric_store;
pub mod metrics_exporter;
pub mod metrics_server;
pub mod metrics_bridge;
pub mod chart_config;
pub mod api;
pub mod instance_manager;
pub mod config;
pub mod exchanges;
pub mod websocket;
pub mod data_buffer;
pub mod keyed_buffer;
pub mod market_metrics;
pub mod symbol_mapper;
pub mod feed_messages;
pub mod bitfinex_feed;
pub mod kraken_feed;
pub mod okx_feed;


verus! {

} // verus!
