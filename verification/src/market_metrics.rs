//! Per-exchange message counts and connection health, kept in concurrent
//! maps keyed by exchange name. Times are milliseconds on a clock chosen by
//! the caller.
use vstd::prelude::*;
use dashmap::DashMap;

verus! {

/// `dashmap::DashMap`, a concurrent hash map.
#[verifier::external_type_specification]
#[verifier::external_body]
#[verifier::reject_recursive_types(K)]
#[verifier::reject_recursive_types(V)]
#[verifier::reject_recursive_types(S)]
pub struct ExDashMap<K, V, S>(DashMap<K, V, S>);

/// The health of one exchange connection.
#[derive(Debug, Clone, PartialEq, Eq)]
pub struct ConnectionHealth {
    pub connected: bool,
    /// When the last reconnection happened.
    pub last_reconnect: Option<u64>,
    pub last_reconnect_secs: Option<u64>,
    pub reconnect_count: u32,
    pub error_count: u32,
    pub last_error: Option<String>,
}

/// The entries of a map of counters or times, by key.
pub uninterp spec fn counter_entries(m: DashMap<String, u64>) -> Map<Seq<char>, u64>;

/// The entries of a map of connection health records, by key.
pub uninterp spec fn health_entries(m: DashMap<String, ConnectionHealth>) -> Map<Seq<char>, ConnectionHealth>;

/// No entries.
pub open spec fn no_counters() -> Map<Seq<char>, u64> {
    Map::empty()
}

/// No health records.
pub open spec fn no_health() -> Map<Seq<char>, ConnectionHealth> {
    Map::empty()
}

/// An empty map of counters (`DashMap::new`).
#[verifier::external_body]
fn new_counter_map() -> (r: DashMap<String, u64>)
    ensures
        counter_entries(r) == no_counters(),
{
    DashMap::new()
}

/// An empty map of health records (`DashMap::new`).
#[verifier::external_body]
fn new_health_map() -> (r: DashMap<String, ConnectionHealth>)
    ensures
        health_entries(r) == no_health(),
{
    DashMap::new()
}

/// The value under `key` (`DashMap::get`, the value copied out).
#[verifier::external_body]
fn counter_get(m: &DashMap<String, u64>, key: &str) -> (r: Option<u64>)
    ensures
        r is Some <==> counter_entries(*m).contains_key(key@),
        r matches Some(v) ==> v == counter_entries(*m)[key@],
{
    m.get(key).map(|v| *v)
}

/// Sets the value under `key` (`DashMap::insert`).
#[verifier::external_body]
fn counter_insert(m: &mut DashMap<String, u64>, key: String, value: u64)
    ensures
        counter_entries(*final(m)) == counter_entries(*old(m)).insert(key@, value),
{
    m.insert(key, value);
}

/// Removes every entry (`DashMap::clear`).
#[verifier::external_body]
fn counter_clear(m: &mut DashMap<String, u64>)
    ensures
        counter_entries(*final(m)) == no_counters(),
{
    m.clear();
}

/// The record under `key` (`DashMap::get`, the record cloned out).
#[verifier::external_body]
fn health_get(m: &DashMap<String, ConnectionHealth>, key: &str) -> (r: Option<ConnectionHealth>)
    ensures
        r is Some <==> health_entries(*m).contains_key(key@),
        r matches Some(v) ==> v == health_entries(*m)[key@],
{
    m.get(key).map(|v| v.clone())
}

/// Sets the record under `key` (`DashMap::insert`).
#[verifier::external_body]
fn health_insert(m: &mut DashMap<String, ConnectionHealth>, key: String, value: ConnectionHealth)
    ensures
        health_entries(*final(m)) == health_entries(*old(m)).insert(key@, value),
{
    m.insert(key, value);
}

/// Every entry, each once, in the map's own order (`DashMap::iter`, keys and
/// records cloned out). The order depends on hashing and is not stated.
#[verifier::external_body]
fn health_list(m: &DashMap<String, ConnectionHealth>) -> (r: Vec<(String, ConnectionHealth)>)
    ensures
        forall|i: int| 0 <= i < r@.len() ==> health_entries(*m).contains_key(#[trigger] r@[i].0@)
            && health_entries(*m)[r@[i].0@] == r@[i].1,
        forall|k: Seq<char>| health_entries(*m).contains_key(k) ==> exists|i: int| 0 <= i < r@.len() && #[trigger] r@[i].0@ == k,
        forall|i: int, j: int| 0 <= i < j < r@.len() ==> #[trigger] r@[i].0@ != #[trigger] r@[j].0@,
{
    m.iter().map(|e| (e.key().clone(), e.value().clone())).collect()
}

/// Message counts, message times and connection health, by exchange.
pub struct MarketMetrics {
    messages_per_second: DashMap<String, u64>,
    last_message_time: DashMap<String, u64>,
    connection_health: DashMap<String, ConnectionHealth>,
}

/// The health of a connection first seen with status `connected`.
pub open spec fn fresh_health(connected: bool) -> ConnectionHealth {
    ConnectionHealth {
        connected,
        last_reconnect: None,
        last_reconnect_secs: None,
        reconnect_count: 0,
        error_count: 0,
        last_error: None,
    }
}

impl MarketMetrics {
    /// Messages counted per exchange since the last reset.
    pub closed spec fn message_counts(&self) -> Map<Seq<char>, u64> {
        counter_entries(self.messages_per_second)
    }

    /// When each exchange's last message arrived.
    pub closed spec fn message_times(&self) -> Map<Seq<char>, u64> {
        counter_entries(self.last_message_time)
    }

    /// The health of each exchange's connection.
    pub closed spec fn health(&self) -> Map<Seq<char>, ConnectionHealth> {
        health_entries(self.connection_health)
    }

    /// No exchange known yet.
    pub fn new() -> (r: MarketMetrics)
        ensures
            r.message_counts() == Map::<Seq<char>, u64>::empty(),
            r.message_times() == Map::<Seq<char>, u64>::empty(),
            r.health() == Map::<Seq<char>, ConnectionHealth>::empty(),
    {
        MarketMetrics {
            messages_per_second: new_counter_map(),
            last_message_time: new_counter_map(),
            connection_health: new_health_map(),
        }
    }

    /// The messages counted for `exchange` since the last reset; zero if none.
    pub fn message_count(&self, exchange: &str) -> (r: u64)
        ensures
            r == (if self.message_counts().contains_key(exchange@) { self.message_counts()[exchange@] } else { 0 }),
    {
        match counter_get(&self.messages_per_second, exchange) {
            Some(n) => n,
            None => 0,
        }
    }

    /// Counts a message from `exchange` that arrived at `now`.
    pub fn record_message(&mut self, exchange: &str, now: u64)
        requires
            !old(self).message_counts().contains_key(exchange@) || old(self).message_counts()[exchange@] < u64::MAX,
        ensures
            final(self).message_counts() == old(self).message_counts().insert(
                exchange@,
                (if old(self).message_counts().contains_key(exchange@) { old(self).message_counts()[exchange@] + 1 } else { 1 }) as u64,
            ),
            final(self).message_times() == old(self).message_times().insert(exchange@, now),
            final(self).health() == old(self).health(),
    {
        let count = match counter_get(&self.messages_per_second, exchange) {
            Some(n) => n + 1,
            None => 1,
        };
        counter_insert(&mut self.messages_per_second, String::from_str(exchange), count);
        counter_insert(&mut self.last_message_time, String::from_str(exchange), now);
    }

    /// Records whether `exchange` is connected; its first status creates its
    /// health record.
    pub fn record_connection_status(&mut self, exchange: &str, connected: bool)
        ensures
            final(self).health() == old(self).health().insert(
                exchange@,
                if old(self).health().contains_key(exchange@) {
                    ConnectionHealth { connected, ..old(self).health()[exchange@] }
                } else {
                    fresh_health(connected)
                },
            ),
            final(self).message_counts() == old(self).message_counts(),
            final(self).message_times() == old(self).message_times(),
    {
        let updated = match health_get(&self.connection_health, exchange) {
            Some(h) => ConnectionHealth { connected, ..h },
            None => ConnectionHealth {
                connected,
                last_reconnect: None,
                last_reconnect_secs: None,
                reconnect_count: 0,
                error_count: 0,
                last_error: None,
            },
        };
        health_insert(&mut self.connection_health, String::from_str(exchange), updated);
    }

    /// Counts a reconnection of `exchange` at `now`; exchanges without a
    /// health record are ignored.
    pub fn record_reconnect(&mut self, exchange: &str, now: u64)
        requires
            old(self).health().contains_key(exchange@) ==> old(self).health()[exchange@].reconnect_count < u32::MAX,
        ensures
            old(self).health().contains_key(exchange@) ==> final(self).health() == old(self).health().insert(
                exchange@,
                ConnectionHealth {
                    last_reconnect: Some(now),
                    last_reconnect_secs: Some(0),
                    reconnect_count: (old(self).health()[exchange@].reconnect_count + 1) as u32,
                    ..old(self).health()[exchange@]
                },
            ),
            !old(self).health().contains_key(exchange@) ==> final(self).health() == old(self).health(),
            final(self).message_counts() == old(self).message_counts(),
            final(self).message_times() == old(self).message_times(),
    {
        if let Some(h) = health_get(&self.connection_health, exchange) {
            let updated = ConnectionHealth {
                last_reconnect: Some(now),
                last_reconnect_secs: Some(0),
                reconnect_count: h.reconnect_count + 1,
                ..h
            };
            health_insert(&mut self.connection_health, String::from_str(exchange), updated);
        }
    }

    /// Counts an error of `exchange` and remembers its message; exchanges
    /// without a health record are ignored.
    pub fn record_error(&mut self, exchange: &str, error: String)
        requires
            old(self).health().contains_key(exchange@) ==> old(self).health()[exchange@].error_count < u32::MAX,
        ensures
            old(self).health().contains_key(exchange@) ==> final(self).health() == old(self).health().insert(
                exchange@,
                ConnectionHealth {
                    error_count: (old(self).health()[exchange@].error_count + 1) as u32,
                    last_error: Some(error),
                    ..old(self).health()[exchange@]
                },
            ),
            !old(self).health().contains_key(exchange@) ==> final(self).health() == old(self).health(),
            final(self).message_counts() == old(self).message_counts(),
            final(self).message_times() == old(self).message_times(),
    {
        if let Some(h) = health_get(&self.connection_health, exchange) {
            let updated = ConnectionHealth { error_count: h.error_count + 1, last_error: Some(error), ..h };
            health_insert(&mut self.connection_health, String::from_str(exchange), updated);
        }
    }

    /// The health of one exchange, if known.
    pub fn get_health(&self, exchange: &str) -> (r: Option<ConnectionHealth>)
        ensures
            r is Some <==> self.health().contains_key(exchange@),
            r matches Some(h) ==> h == self.health()[exchange@],
    {
        health_get(&self.connection_health, exchange)
    }

    /// The health of every known exchange, each once (in no particular order).
    pub fn get_health_status(&self) -> (r: Vec<(String, ConnectionHealth)>)
        ensures
            forall|i: int| 0 <= i < r@.len() ==> self.health().contains_key(#[trigger] r@[i].0@)
                && self.health()[r@[i].0@] == r@[i].1,
            forall|k: Seq<char>| self.health().contains_key(k) ==> exists|i: int| 0 <= i < r@.len() && #[trigger] r@[i].0@ == k,
            forall|i: int, j: int| 0 <= i < j < r@.len() ==> #[trigger] r@[i].0@ != #[trigger] r@[j].0@,
    {
        health_list(&self.connection_health)
    }

    /// Forgets the message counts.
    pub fn reset_message_counts(&mut self)
        ensures
            final(self).message_counts() == Map::<Seq<char>, u64>::empty(),
            final(self).message_times() == old(self).message_times(),
            final(self).health() == old(self).health(),
    {
        counter_clear(&mut self.messages_per_second);
    }
}

} // verus!
