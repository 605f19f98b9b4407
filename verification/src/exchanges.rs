//! Exchange-independent connection logic: spreading symbols over
//! connections, naming Binance streams, and the reconnection policy that
//! every exchange task follows.
use vstd::prelude::*;
use crate::data_types::{lowercase_of, to_lowercase};
use crate::text::str_eq;

verus! {

/// Market-data channels.
#[derive(Debug, Clone, Copy, PartialEq, Eq, Structural)]
pub enum Channel {
    Ticker,
    Trades,
    OrderBook,
}

/// The batches, joined end to end.
pub open spec fn concat_all(batches: Seq<Seq<String>>) -> Seq<String>
    decreases batches.len(),
{
    if batches.len() == 0 {
        Seq::empty()
    } else {
        concat_all(batches.drop_last()) + batches.last()
    }
}

/// The contents of each batch.
pub open spec fn batch_views(batches: Seq<Vec<String>>) -> Seq<Seq<String>> {
    batches.map_values(|b: Vec<String>| b@)
}

/// The effective batch size: a limit of zero still puts one symbol on each connection.
pub open spec fn batch_size(max_per_connection: usize) -> nat {
    if max_per_connection == 0 {
        1
    } else {
        max_per_connection as nat
    }
}

/// `batches` splits `symbols`, in order, into runs of `k`, the last of which
/// may be shorter but not empty.
pub open spec fn is_batching(batches: Seq<Seq<String>>, symbols: Seq<String>, k: nat) -> bool {
    &&& concat_all(batches) == symbols
    &&& forall|i: int| 0 <= i < batches.len() ==> 1 <= #[trigger] batches[i].len() <= k
    &&& forall|i: int| 0 <= i < batches.len() - 1 ==> #[trigger] batches[i].len() == k
}

proof fn lemma_concat_push(batches: Seq<Seq<String>>, b: Seq<String>)
    ensures
        concat_all(batches.push(b)) == concat_all(batches) + b,
{
    assert(batches.push(b).drop_last() =~= batches);
}

/// Spreads symbols over connections: consecutive runs of
/// `max_per_connection` symbols, the last run holding the rest.
pub fn distribute_symbols(total_symbols: Vec<String>, max_per_connection: usize) -> (r: Vec<Vec<String>>)
    ensures
        is_batching(batch_views(r@), total_symbols@, batch_size(max_per_connection)),
        r@.len() == (total_symbols@.len() + batch_size(max_per_connection) - 1) / batch_size(max_per_connection) as int,
{
    let ghost k = batch_size(max_per_connection);
    let mut distributions: Vec<Vec<String>> = Vec::new();
    let mut current_batch: Vec<String> = Vec::new();
    let n = total_symbols.len();
    let mut i: usize = 0;
    while i < n
        invariant
            n == total_symbols@.len(),
            k == batch_size(max_per_connection),
            i <= n,
            concat_all(batch_views(distributions@)) + current_batch@ == total_symbols@.take(i as int),
            forall|j: int| 0 <= j < distributions@.len() ==> #[trigger] distributions@[j]@.len() == k,
            current_batch@.len() < k,
            distributions@.len() * k + current_batch@.len() == i,
        decreases n - i,
    {
        let ghost before = batch_views(distributions@);
        let symbol = total_symbols[i].clone();
        current_batch.push(symbol);
        assert(total_symbols@.take(i + 1) =~= total_symbols@.take(i as int).push(total_symbols@[i as int]));
        if current_batch.len() >= max_per_connection {
            let ghost full = current_batch@;
            distributions.push(current_batch);
            current_batch = Vec::new();
            assert(batch_views(distributions@) =~= before.push(full));
            proof {
                lemma_concat_push(before, full);
            }
            assert(concat_all(batch_views(distributions@)) + current_batch@ =~= concat_all(before) + full);
            assert(distributions@.len() * k == (distributions@.len() - 1) * k + k) by (nonlinear_arith);
        }
        i = i + 1;
    }
    let ghost full_batches = distributions@.len();
    let ghost rest = current_batch@.len();
    if current_batch.len() > 0 {
        let ghost before = batch_views(distributions@);
        let ghost last = current_batch@;
        distributions.push(current_batch);
        assert(batch_views(distributions@) =~= before.push(last));
        proof {
            lemma_concat_push(before, last);
        }
    } else {
        assert(current_batch@ =~= Seq::<String>::empty());
        assert(concat_all(batch_views(distributions@)) + Seq::<String>::empty() =~= concat_all(batch_views(distributions@)));
    }
    assert(total_symbols@.take(n as int) =~= total_symbols@);
    assert((full_batches * k + rest + k - 1) / (k as int) == full_batches + (if rest > 0 { 1int } else { 0int })) by (nonlinear_arith)
        requires
            k >= 1,
            rest < k,
    {
        if rest > 0 {
            assert(full_batches * k + rest + k - 1 == (full_batches + 1) * k + (rest - 1));
        } else {
            assert(full_batches * k + rest + k - 1 == full_batches * k + (k - 1));
        }
    }
    distributions
}

/// The suffix naming a channel's stream.
pub open spec fn channel_suffix(c: Channel) -> Seq<char> {
    match c {
        Channel::Ticker => "@ticker"@,
        Channel::Trades => "@trade"@,
        Channel::OrderBook => "@depth"@,
    }
}

fn channel_suffix_str(c: Channel) -> (r: &'static str)
    ensures
        r@ == channel_suffix(c),
{
    match c {
        Channel::Ticker => "@ticker",
        Channel::Trades => "@trade",
        Channel::OrderBook => "@depth",
    }
}

/// The streams of one symbol: its lower-cased name with each channel's suffix.
pub open spec fn symbol_streams(symbol: Seq<char>, channels: Seq<Channel>) -> Seq<Seq<char>> {
    channels.map_values(|c: Channel| lowercase_of(symbol) + channel_suffix(c))
}

/// The streams of all symbols, symbol by symbol.
pub open spec fn stream_names(symbols: Seq<String>, channels: Seq<Channel>) -> Seq<Seq<char>>
    decreases symbols.len(),
{
    if symbols.len() == 0 {
        Seq::empty()
    } else {
        stream_names(symbols.drop_last(), channels) + symbol_streams(symbols.last()@, channels)
    }
}

/// The parts joined with "/" between them.
pub open spec fn join_slash(parts: Seq<Seq<char>>) -> Seq<char>
    decreases parts.len(),
{
    if parts.len() == 0 {
        Seq::empty()
    } else if parts.len() == 1 {
        parts[0]
    } else {
        join_slash(parts.drop_last()) + "/"@ + parts.last()
    }
}

/// The combined-stream URL for the given symbols and channels.
pub open spec fn stream_url(base_url: Seq<char>, symbols: Seq<String>, channels: Seq<Channel>) -> Seq<char> {
    base_url + "/stream?streams="@ + join_slash(stream_names(symbols, channels))
}

/// The Binance combined-stream URL: one stream per symbol and channel, named
/// by the lower-cased symbol and the channel ("@ticker", "@trade", "@depth"),
/// joined with "/".
pub fn build_stream_url(base_url: &str, symbols: &[String], channels: &[Channel]) -> (r: String)
    ensures
        r@ == stream_url(base_url@, symbols@, channels@),
{
    let mut streams: Vec<String> = Vec::new();
    let mut i: usize = 0;
    while i < symbols.len()
        invariant
            i <= symbols@.len(),
            streams@.map_values(|s: String| s@) == stream_names(symbols@.take(i as int), channels@),
        decreases symbols@.len() - i,
    {
        let lower = to_lowercase(symbols[i].as_str());
        let ghost before = streams@.map_values(|s: String| s@);
        let mut j: usize = 0;
        while j < channels.len()
            invariant
                i < symbols@.len(),
                j <= channels@.len(),
                lower@ == lowercase_of(symbols@[i as int]@),
                streams@.map_values(|s: String| s@) == before + symbol_streams(symbols@[i as int]@, channels@.take(j as int)),
            decreases channels@.len() - j,
        {
            let mut stream = lower.clone();
            stream.append(channel_suffix_str(channels[j]));
            let ghost mid = streams@;
            streams.push(stream);
            proof {
                let sym = symbols@[i as int]@;
                assert(stream@ == lowercase_of(sym) + channel_suffix(channels@[j as int]));
                assert(streams@.map_values(|s: String| s@) =~= mid.map_values(|s: String| s@).push(stream@));
                assert(symbol_streams(sym, channels@.take(j + 1)) =~= symbol_streams(sym, channels@.take(j as int)).push(
                    lowercase_of(sym) + channel_suffix(channels@[j as int])));
                assert(streams@.map_values(|s: String| s@) =~= before + symbol_streams(sym, channels@.take(j + 1)));
            }
            j = j + 1;
        }
        assert(channels@.take(channels@.len() as int) =~= channels@);
        assert(symbols@.take(i + 1).drop_last() =~= symbols@.take(i as int));
        i = i + 1;
    }
    assert(symbols@.take(symbols@.len() as int) =~= symbols@);
    let ghost names = streams@.map_values(|s: String| s@);

    let mut r = String::from_str(base_url);
    r.append("/stream?streams=");
    let ghost prefix = r@;
    let mut k: usize = 0;
    while k < streams.len()
        invariant
            k <= streams@.len(),
            names == streams@.map_values(|s: String| s@),
            r@ == prefix + join_slash(names.take(k as int)),
        decreases streams@.len() - k,
    {
        if k > 0 {
            r.append("/");
        }
        r.append(streams[k].as_str());
        assert(names.take(k + 1).drop_last() =~= names.take(k as int));
        proof {
            if k == 0 {
                assert(names.take(1) =~= seq![names[0]]);
            }
        }
        k = k + 1;
    }
    assert(names.take(streams@.len() as int) =~= names);
    r
}

/// The Coinbase channel that carries a market-data channel.
pub open spec fn coinbase_channel(c: Channel) -> Seq<char> {
    match c {
        Channel::Ticker => "ticker"@,
        Channel::Trades => "matches"@,
        Channel::OrderBook => "level2"@,
    }
}

fn coinbase_channel_str(c: Channel) -> (r: &'static str)
    ensures
        r@ == coinbase_channel(c),
{
    match c {
        Channel::Ticker => "ticker",
        Channel::Trades => "matches",
        Channel::OrderBook => "level2",
    }
}

/// The channels of a Coinbase subscription: one per requested channel, in
/// order, and "heartbeat" last to keep the connection alive.
pub fn subscription_channels(channels: &[Channel]) -> (r: Vec<&'static str>)
    ensures
        r@.map_values(|n: &'static str| n@) == channels@.map_values(|c: Channel| coinbase_channel(c)).push("heartbeat"@),
{
    let mut names: Vec<&'static str> = Vec::new();
    let mut i: usize = 0;
    while i < channels.len()
        invariant
            i <= channels@.len(),
            names@.map_values(|n: &'static str| n@) == channels@.take(i as int).map_values(|c: Channel| coinbase_channel(c)),
        decreases channels@.len() - i,
    {
        let ghost before = names@.map_values(|n: &'static str| n@);
        names.push(coinbase_channel_str(channels[i]));
        assert(names@.map_values(|n: &'static str| n@) =~= before.push(coinbase_channel(channels@[i as int])));
        assert(channels@.take(i + 1) =~= channels@.take(i as int).push(channels@[i as int]));
        assert(names@.map_values(|n: &'static str| n@) =~= channels@.take(i + 1).map_values(|c: Channel| coinbase_channel(c)));
        i = i + 1;
    }
    assert(channels@.take(channels@.len() as int) =~= channels@);
    names.push("heartbeat");
    assert(names@.map_values(|n: &'static str| n@) =~= channels@.map_values(|c: Channel| coinbase_channel(c)).push("heartbeat"@));
    names
}

/// The ids of the listed products whose status is `active_status`, in the
/// order listed.
pub open spec fn tradable_ids(products: Seq<(String, String)>, active_status: Seq<char>) -> Seq<Seq<char>>
    decreases products.len(),
{
    if products.len() == 0 {
        Seq::empty()
    } else {
        let rest = tradable_ids(products.drop_last(), active_status);
        if products.last().1@ == active_status {
            rest.push(products.last().0@)
        } else {
            rest
        }
    }
}

/// The symbols an exchange lists as tradable: of the (id, status) pairs it
/// reported, the ids whose status is `active_status` ("TRADING" on Binance,
/// "online" on Coinbase), in order.
pub fn tradable_symbols(products: &Vec<(String, String)>, active_status: &str) -> (r: Vec<String>)
    ensures
        r@.map_values(|s: String| s@) == tradable_ids(products@, active_status@),
{
    let mut ids: Vec<String> = Vec::new();
    let mut i: usize = 0;
    while i < products.len()
        invariant
            i <= products@.len(),
            ids@.map_values(|s: String| s@) == tradable_ids(products@.take(i as int), active_status@),
        decreases products@.len() - i,
    {
        let ghost before = ids@.map_values(|s: String| s@);
        assert(products@.take(i + 1).drop_last() =~= products@.take(i as int));
        if str_eq(products[i].1.as_str(), active_status) {
            ids.push(products[i].0.clone());
            assert(ids@.map_values(|s: String| s@) =~= before.push(products@[i as int].0@));
        }
        i = i + 1;
    }
    assert(products@.take(products@.len() as int) =~= products@);
    ids
}

/// Connection attempts that may fail in a row before a long pause.
pub const MAX_CONSECUTIVE_FAILURES: u32 = 10;

/// The longest wait between attempts, in seconds.
pub const MAX_BACKOFF_SECS: u64 = 60;

/// The pause after too many failures in a row, in seconds.
pub const LONG_PAUSE_SECS: u64 = 300;

/// The reconnection state of one exchange connection task.
#[derive(Debug, Clone, Copy, PartialEq, Eq, Structural)]
pub struct ReconnectPolicy {
    /// Failed connection attempts since the last success.
    pub consecutive_failures: u32,
    /// Seconds to wait before the next attempt.
    pub backoff_secs: u64,
}

/// A fresh policy: no failures, a one-second wait.
pub open spec fn fresh_policy() -> ReconnectPolicy {
    ReconnectPolicy { consecutive_failures: 0, backoff_secs: 1 }
}

/// The wait doubled, up to the cap.
pub open spec fn doubled(backoff: u64) -> u64 {
    if 2 * backoff <= MAX_BACKOFF_SECS { (2 * backoff) as u64 } else { MAX_BACKOFF_SECS }
}

/// After a failed attempt: the next state and the seconds to wait first.
/// The tenth failure in a row waits five minutes and starts over.
pub open spec fn after_failure(p: ReconnectPolicy) -> (ReconnectPolicy, u64) {
    if p.consecutive_failures + 1 >= MAX_CONSECUTIVE_FAILURES {
        (fresh_policy(), LONG_PAUSE_SECS)
    } else {
        (ReconnectPolicy { consecutive_failures: (p.consecutive_failures + 1) as u32, backoff_secs: doubled(p.backoff_secs) }, p.backoff_secs)
    }
}

/// After an established connection dropped: the next state and the seconds
/// to wait before reconnecting.
pub open spec fn after_disconnect(p: ReconnectPolicy) -> (ReconnectPolicy, u64) {
    (ReconnectPolicy { backoff_secs: doubled(p.backoff_secs), ..p }, p.backoff_secs)
}

impl ReconnectPolicy {
    /// The policy's bounds: fewer than ten failures and a wait of 1 to 60 s.
    pub open spec fn wf(&self) -> bool {
        &&& self.consecutive_failures < MAX_CONSECUTIVE_FAILURES
        &&& 1 <= self.backoff_secs <= MAX_BACKOFF_SECS
    }

    /// A fresh policy.
    pub fn new() -> (r: ReconnectPolicy)
        ensures
            r == fresh_policy(),
            r.wf(),
    {
        ReconnectPolicy { consecutive_failures: 0, backoff_secs: 1 }
    }

    fn doubled_backoff(&self) -> (r: u64)
        requires
            self.wf(),
        ensures
            r == doubled(self.backoff_secs),
    {
        if 2 * self.backoff_secs <= MAX_BACKOFF_SECS { 2 * self.backoff_secs } else { MAX_BACKOFF_SECS }
    }

    /// Records a failed connection attempt; returns the seconds to wait before
    /// the next one.
    pub fn on_connect_failed(&mut self) -> (wait: u64)
        requires
            old(self).wf(),
        ensures
            final(self).wf(),
            (*final(self), wait) == after_failure(*old(self)),
    {
        if self.consecutive_failures + 1 >= MAX_CONSECUTIVE_FAILURES {
            self.consecutive_failures = 0;
            self.backoff_secs = 1;
            LONG_PAUSE_SECS
        } else {
            let wait = self.backoff_secs;
            self.backoff_secs = self.doubled_backoff();
            self.consecutive_failures = self.consecutive_failures + 1;
            wait
        }
    }

    /// Records a successful connection: failures and wait start over.
    pub fn on_connected(&mut self)
        ensures
            *final(self) == fresh_policy(),
    {
        self.consecutive_failures = 0;
        self.backoff_secs = 1;
    }

    /// Records that an established connection dropped; returns the seconds to
    /// wait before reconnecting.
    pub fn on_disconnected(&mut self) -> (wait: u64)
        requires
            old(self).wf(),
        ensures
            final(self).wf(),
            (*final(self), wait) == after_disconnect(*old(self)),
    {
        let wait = self.backoff_secs;
        self.backoff_secs = self.doubled_backoff();
        wait
    }
}

/// What one read from a connection gave.
#[derive(Debug, Clone, Copy, PartialEq, Eq, Structural)]
pub enum ReadOutcome {
    /// A data message.
    Message,
    /// A control frame or nothing to hand on.
    Nothing,
    /// A read error.
    Error,
    /// The read itself timed out.
    TimedOut,
}

/// What the reading loop does next.
#[derive(Debug, Clone, Copy, PartialEq, Eq, Structural)]
pub enum ReadAction {
    /// Count the message, restart the idle clock, and read on.
    CountMessage,
    /// Read on.
    Continue,
    /// Count the error and drop the connection.
    RecordErrorAndDisconnect,
    /// Drop the connection: nothing arrived for too long.
    Disconnect,
    /// Record a "Connection timeout" error and drop the connection.
    RecordTimeoutAndDisconnect,
}

/// The reading loop's decision.
pub open spec fn read_action(outcome: ReadOutcome, idle_secs: u64, limit_secs: u64) -> ReadAction {
    match outcome {
        ReadOutcome::Message => ReadAction::CountMessage,
        ReadOutcome::Nothing => ReadAction::Continue,
        ReadOutcome::Error => ReadAction::RecordErrorAndDisconnect,
        ReadOutcome::TimedOut => if idle_secs > limit_secs { ReadAction::Disconnect } else { ReadAction::Continue },
    }
}

/// Decides what the Binance reading loop does after a read, given the seconds
/// since the last data message and the allowed silence (60 s).
pub fn after_read(outcome: ReadOutcome, idle_secs: u64, limit_secs: u64) -> (r: ReadAction)
    ensures
        r == read_action(outcome, idle_secs, limit_secs),
{
    match outcome {
        ReadOutcome::Message => ReadAction::CountMessage,
        ReadOutcome::Nothing => ReadAction::Continue,
        ReadOutcome::Error => ReadAction::RecordErrorAndDisconnect,
        ReadOutcome::TimedOut => if idle_secs > limit_secs { ReadAction::Disconnect } else { ReadAction::Continue },
    }
}

/// The Coinbase reading loop's decision: a data message is counted; a closed
/// stream or a frame with nothing to hand on ends the connection; a read error
/// is recorded and ends it; a read that timed out ends it with a recorded
/// "Connection timeout" once nothing has arrived for more than two minutes.
pub open spec fn coinbase_read_action(outcome: ReadOutcome, idle_secs: u64) -> ReadAction {
    match outcome {
        ReadOutcome::Message => ReadAction::CountMessage,
        ReadOutcome::Nothing => ReadAction::Disconnect,
        ReadOutcome::Error => ReadAction::RecordErrorAndDisconnect,
        ReadOutcome::TimedOut => if idle_secs > COINBASE_SILENCE_SECS {
            ReadAction::RecordTimeoutAndDisconnect
        } else {
            ReadAction::Continue
        },
    }
}

/// The longest silence a Coinbase connection is allowed, in seconds.
pub const COINBASE_SILENCE_SECS: u64 = 120;

/// Decides what the Coinbase reading loop does after a read, given the
/// seconds since the last data message.
pub fn coinbase_after_read(outcome: ReadOutcome, idle_secs: u64) -> (r: ReadAction)
    ensures
        r == coinbase_read_action(outcome, idle_secs),
{
    match outcome {
        ReadOutcome::Message => ReadAction::CountMessage,
        ReadOutcome::Nothing => ReadAction::Disconnect,
        ReadOutcome::Error => ReadAction::RecordErrorAndDisconnect,
        ReadOutcome::TimedOut => if idle_secs > COINBASE_SILENCE_SECS {
            ReadAction::RecordTimeoutAndDisconnect
        } else {
            ReadAction::Continue
        },
    }
}

/// The seconds an OKX or Bitfinex connection waits before it tries again,
/// after any failure or disconnection.
pub const FIXED_RETRY_SECS: u64 = 5;

/// The OKX and Bitfinex reading loops' decision: a data message is counted; a
/// closed stream or a frame with nothing to hand on ends the connection; a
/// read error is recorded and ends it. These loops set no read timeout, so a
/// timed-out read only reads on.
pub open spec fn steady_read_action(outcome: ReadOutcome) -> ReadAction {
    match outcome {
        ReadOutcome::Message => ReadAction::CountMessage,
        ReadOutcome::Nothing => ReadAction::Disconnect,
        ReadOutcome::Error => ReadAction::RecordErrorAndDisconnect,
        ReadOutcome::TimedOut => ReadAction::Continue,
    }
}

/// Decides what the OKX or Bitfinex reading loop does after a read.
pub fn steady_after_read(outcome: ReadOutcome) -> (r: ReadAction)
    ensures
        r == steady_read_action(outcome),
{
    match outcome {
        ReadOutcome::Message => ReadAction::CountMessage,
        ReadOutcome::Nothing => ReadAction::Disconnect,
        ReadOutcome::Error => ReadAction::RecordErrorAndDisconnect,
        ReadOutcome::TimedOut => ReadAction::Continue,
    }
}

/// The policy after `n` failed attempts in a row.
pub open spec fn after_failures(p: ReconnectPolicy, n: nat) -> ReconnectPolicy
    decreases n,
{
    if n == 0 {
        p
    } else {
        after_failure(after_failures(p, (n - 1) as nat)).0
    }
}

/// From a fresh start, the wait doubles with every failure in a row, from one
/// second up to one minute; after nine failures the tenth waits five minutes
/// and starts over.
pub proof fn law_backoff_schedule(n: nat)
    requires
        n < 10,
    ensures
        after_failures(fresh_policy(), n).consecutive_failures == n,
        after_failures(fresh_policy(), n).backoff_secs == if crate::utils::pow2(n) <= 60 { crate::utils::pow2(n) } else { 60 },
        n == 9 ==> after_failure(after_failures(fresh_policy(), n)) == (fresh_policy(), LONG_PAUSE_SECS),
    decreases n,
{
    reveal_with_fuel(crate::utils::pow2, 2);
    if n > 0 {
        law_backoff_schedule((n - 1) as nat);
    }
}

/// Every wait lies between one second and five minutes, and the policy stays
/// within its bounds whatever happens.
pub proof fn law_waits_bounded(p: ReconnectPolicy)
    requires
        p.wf(),
    ensures
        after_failure(p).0.wf(),
        1 <= after_failure(p).1 <= LONG_PAUSE_SECS,
        after_disconnect(p).0.wf(),
        1 <= after_disconnect(p).1 <= MAX_BACKOFF_SECS,
{
}

} // verus!
