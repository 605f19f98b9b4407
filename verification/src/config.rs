//! The logger's configuration: where data goes, how it is buffered, and how
//! each exchange is reached.
use vstd::prelude::*;

verus! {

/// Storage and service settings.
#[derive(Debug, Clone, PartialEq, Eq)]
pub struct LoggerConfig {
    pub data_path: String,
    pub buffer_size: usize,
    pub flush_interval_secs: u64,
    pub health_check_port: u16,
}

/// How one exchange is reached.
#[derive(Debug, Clone, PartialEq, Eq)]
pub struct ExchangeConfig {
    pub enabled: bool,
    pub ws_endpoint: String,
    pub rest_endpoint: String,
    pub max_connections: usize,
    pub symbols_per_connection: usize,
    pub reconnect_delay_secs: u64,
    pub max_reconnect_delay_secs: u64,
    pub ping_interval_secs: Option<u64>,
    /// The symbols to follow; `None` follows every available one.
    pub symbols: Option<Vec<String>>,
}

/// The settings of every supported exchange.
#[derive(Debug, Clone, PartialEq, Eq)]
pub struct ExchangesConfig {
    pub coinbase: ExchangeConfig,
    pub binance: ExchangeConfig,
    pub okx: ExchangeConfig,
    pub kraken: ExchangeConfig,
    pub bitfinex: ExchangeConfig,
}

/// The whole configuration.
#[derive(Debug, Clone, PartialEq, Eq)]
pub struct Config {
    pub logger: LoggerConfig,
    pub exchanges: ExchangesConfig,
}

/// `c` is an enabled exchange reached at the given endpoints, with the given
/// connection limits and ping interval, reconnecting after 1 s and at most
/// 60 s, following every available symbol.
pub open spec fn default_exchange(
    c: ExchangeConfig,
    ws: Seq<char>,
    rest: Seq<char>,
    max_connections: usize,
    symbols_per_connection: usize,
    ping: Option<u64>,
) -> bool {
    &&& c.enabled
    &&& c.ws_endpoint@ == ws
    &&& c.rest_endpoint@ == rest
    &&& c.max_connections == max_connections
    &&& c.symbols_per_connection == symbols_per_connection
    &&& c.reconnect_delay_secs == 1
    &&& c.max_reconnect_delay_secs == 60
    &&& c.ping_interval_secs == ping
    &&& c.symbols is None
}

/// The default configuration.
pub open spec fn is_default_config(c: Config) -> bool {
    &&& c.logger.data_path@ == "/mnt/md/data"@
    &&& c.logger.buffer_size == 8192
    &&& c.logger.flush_interval_secs == 5
    &&& c.logger.health_check_port == 8080
    &&& default_exchange(c.exchanges.coinbase, "wss://ws-feed.exchange.coinbase.com"@, "https://api.exchange.coinbase.com"@, 10, 50, None)
    &&& default_exchange(c.exchanges.binance, "wss://stream.binance.com:9443"@, "https://api.binance.com"@, 5, 100, Some(20))
    &&& default_exchange(c.exchanges.okx, "wss://ws.okx.com:8443/ws/v5/public"@, "https://www.okx.com/api/v5"@, 10, 100, Some(30))
    &&& default_exchange(c.exchanges.kraken, "wss://ws.kraken.com"@, "https://api.kraken.com/0"@, 5, 50, Some(60))
    &&& default_exchange(c.exchanges.bitfinex, "wss://api-pub.bitfinex.com/ws/2"@, "https://api-pub.bitfinex.com/v2"@, 10, 15, Some(15))
}

fn exchange_defaults(ws: &str, rest: &str, max_connections: usize, symbols_per_connection: usize, ping: Option<u64>) -> (r: ExchangeConfig)
    ensures
        default_exchange(r, ws@, rest@, max_connections, symbols_per_connection, ping),
{
    ExchangeConfig {
        enabled: true,
        ws_endpoint: String::from_str(ws),
        rest_endpoint: String::from_str(rest),
        max_connections,
        symbols_per_connection,
        reconnect_delay_secs: 1,
        max_reconnect_delay_secs: 60,
        ping_interval_secs: ping,
        symbols: None,
    }
}

impl Default for Config {
    /// Data under /mnt/md/data, an 8 KiB buffer flushed every 5 s, health
    /// checks on port 8080, and every exchange enabled with its own endpoints
    /// and limits (Bitfinex allows 15 symbols per connection; Coinbase needs no pings).
    fn default() -> (r: Config)
        ensures
            is_default_config(r),
    {
        Config {
            logger: LoggerConfig {
                data_path: String::from_str("/mnt/md/data"),
                buffer_size: 8192,
                flush_interval_secs: 5,
                health_check_port: 8080,
            },
            exchanges: ExchangesConfig {
                coinbase: exchange_defaults("wss://ws-feed.exchange.coinbase.com", "https://api.exchange.coinbase.com", 10, 50, None),
                binance: exchange_defaults("wss://stream.binance.com:9443", "https://api.binance.com", 5, 100, Some(20)),
                okx: exchange_defaults("wss://ws.okx.com:8443/ws/v5/public", "https://www.okx.com/api/v5", 10, 100, Some(30)),
                kraken: exchange_defaults("wss://ws.kraken.com", "https://api.kraken.com/0", 5, 50, Some(60)),
                bitfinex: exchange_defaults("wss://api-pub.bitfinex.com/ws/2", "https://api-pub.bitfinex.com/v2", 10, 15, Some(15)),
            },
        }
    }
}

} // verus!
