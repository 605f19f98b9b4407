//! What the logger does with each OKX feed message. Data messages name a
//! channel ("tickers" or "trades") and carry a list of items; events report
//! subscriptions and errors. Prices and sizes are kept as their decimal text.
use vstd::prelude::*;
use std::hash::{Hash, Hasher};
use crate::data_buffer::le64;
use crate::data_types::{ExchangeId, TradeSide};
use crate::feed_messages::{copied, is_word, millis_time, MarketUpdate, TradeUpdate};
use crate::symbol_mapper::{index_key, SymbolMapper};
use crate::text::str_eq;

verus! {

/// One item of an OKX data message: the fields the logger reads, each where
/// it is text.
pub struct OkxItem {
    pub inst_id: Option<String>,
    pub ts: Option<String>,
    pub last: Option<String>,
    pub last_size: Option<String>,
    pub bid: Option<String>,
    pub ask: Option<String>,
    pub open_24h: Option<String>,
    pub trade_id: Option<String>,
    pub price: Option<String>,
    pub size: Option<String>,
    pub side: Option<String>,
}

/// An OKX feed message.
pub enum OkxMessage {
    /// An object with an `event` text, and its `code` and `msg` where they are
    /// text.
    Event { event: String, code: Option<String>, msg: Option<String> },
    /// An object whose `arg` is an object naming a `channel`, with a `data`
    /// array.
    Data { channel: String, items: Vec<OkxItem> },
    /// Anything else: the text "pong", text that is not JSON, other objects.
    Other,
}

/// What to do with an OKX message.
pub enum OkxAction {
    /// Store these ticker updates, in order; the text is the error that
    /// stopped the reading before the end, if one did.
    Markets(Vec<MarketUpdate>, Option<String>),
    /// Store these trades, likewise.
    Trades(Vec<TradeUpdate>, Option<String>),
    /// The exchange reported an error.
    ExchangeError(String),
    Ignore,
}

/// The value of a run of decimal digits.
pub open spec fn digits_value(d: Seq<char>) -> int
    decreases d.len(),
{
    if d.len() == 0 {
        0
    } else {
        digits_value(d.drop_last()) * 10 + (d.last() as int - '0' as int)
    }
}

/// What `str::parse::<u64>` reads from a text: an optional "+" and then one or
/// more decimal digits whose value fits in 64 bits.
pub open spec fn u64_text(s: Seq<char>) -> Option<u64> {
    let d = if s.len() > 0 && s[0] == '+' { s.skip(1) } else { s };
    if d.len() > 0 && (forall|i: int| 0 <= i < d.len() ==> '0' <= #[trigger] d[i] <= '9')
        && digits_value(d) <= u64::MAX {
        Some(digits_value(d) as u64)
    } else {
        None
    }
}

/// Parses a decimal `u64` (`str::parse::<u64>`). Claimed, as std documents
/// it: an optional "+" followed by digits only, the value within range;
/// anything else is refused.
#[verifier::external_body]
fn parse_u64(s: &str) -> (r: Option<u64>)
    ensures
        r == u64_text(s@),
{
    s.parse::<u64>().ok()
}

/// Names the hash that std's `DefaultHasher::new()` gives after hashing a
/// trade id, a time in seconds and an instrument id, in that order.
pub uninterp spec fn okx_trade_hash(trade_id: u64, secs: u32, inst_id: Seq<char>) -> u64;

/// Hashes (trade id, seconds, instrument id) with std's `DefaultHasher`
/// (`DefaultHasher::new`, `Hash::hash` of each value, `Hasher::finish`).
/// Claimed: the result is the (named) hash of the three values, a function of
/// them alone, as std documents that every hasher made by `new` is the same;
/// which function it is, std leaves unsaid.
#[verifier::external_body]
fn trade_hash(trade_id: u64, secs: u32, inst_id: &str) -> (r: u64)
    ensures
        r == okx_trade_hash(trade_id, secs, inst_id@),
{
    let mut hasher = std::collections::hash_map::DefaultHasher::new();
    trade_id.hash(&mut hasher);
    secs.hash(&mut hasher);
    inst_id.hash(&mut hasher);
    hasher.finish()
}

/// The order id that stands in for both sides of an OKX trade: the hash's
/// little-endian bytes, then its big-endian bytes.
pub open spec fn okx_order_id(hash: u64) -> Seq<u8> {
    le64(hash) + le64(hash).reverse()
}

/// The normalized form of an OKX instrument: the mapped one, else itself.
pub open spec fn okx_symbol(index: Map<Seq<char>, String>, inst: Seq<char>) -> Seq<char> {
    if index.contains_key(index_key(ExchangeId::OKX, inst)) {
        index[index_key(ExchangeId::OKX, inst)]@
    } else {
        inst
    }
}

/// The time of an item: its millisecond `ts` where that reads as a number,
/// else the time of arrival.
pub open spec fn okx_time(ts: Option<String>, arrival: (u32, u32)) -> (u32, u32) {
    match ts {
        Some(t) => match u64_text(t@) {
            Some(ms) => millis_time(ms),
            None => arrival,
        },
        None => arrival,
    }
}

/// `q` is the ticker update read from `item`, whose instrument is `inst`.
pub open spec fn okx_ticker_from(q: MarketUpdate, item: OkxItem, inst: Seq<char>, index: Map<Seq<char>, String>, arrival: (u32, u32)) -> bool {
    &&& q.exchange == ExchangeId::OKX
    &&& q.symbol@ == okx_symbol(index, inst)
    &&& q.time == Some(okx_time(item.ts, arrival))
    &&& q.price == item.last
    &&& q.volume == item.last_size
    &&& q.best_bid == item.bid
    &&& q.best_ask == item.ask
    &&& q.open == item.open_24h
}

/// `t` is the trade read from `item`, whose instrument is `inst`.
pub open spec fn okx_trade_from(t: TradeUpdate, item: OkxItem, inst: Seq<char>, index: Map<Seq<char>, String>, arrival: (u32, u32)) -> bool {
    let id = match item.trade_id {
        Some(x) => match u64_text(x@) {
            Some(v) => v,
            None => 0u64,
        },
        None => 0u64,
    };
    let time = okx_time(item.ts, arrival);
    &&& t.exchange == ExchangeId::OKX
    &&& t.symbol@ == okx_symbol(index, inst)
    &&& t.trade_id == id
    &&& t.time == Some(time)
    &&& t.price == item.price
    &&& t.size == item.size
    &&& t.side == (if item.side matches Some(s) && s@ == "sell"@ { TradeSide::Sell } else { TradeSide::Buy })
    &&& t.maker_order_id@ == okx_order_id(okx_trade_hash(id, time.0, inst))
    &&& t.taker_order_id@ == okx_order_id(okx_trade_hash(id, time.0, inst))
}

/// The number of leading items that name their instrument.
pub open spec fn named_prefix(items: Seq<OkxItem>) -> int
    decreases items.len(),
{
    if items.len() == 0 {
        0
    } else if items[0].inst_id is None {
        0
    } else {
        1 + named_prefix(items.drop_first())
    }
}

/// `r` is what the logger does with the OKX message `msg`, given the mapper's
/// index and the time of arrival.
pub open spec fn okx_action_spec(msg: OkxMessage, index: Map<Seq<char>, String>, arrival: (u32, u32), r: OkxAction) -> bool {
    match msg {
        OkxMessage::Event { event, code, msg } => {
            if event@ == "error"@ {
                r matches OkxAction::ExchangeError(m) && m@ == "OKX error: "@
                    + (match code { Some(c) => c@, None => Seq::<char>::empty() }) + " - "@
                    + (match msg { Some(x) => x@, None => "Unknown error"@ })
            } else {
                r is Ignore
            }
        },
        OkxMessage::Data { channel, items } => {
            let n = named_prefix(items@);
            let stopped = n < items@.len();
            if channel@ == "tickers"@ {
                r matches OkxAction::Markets(v, err) && {
                    &&& v@.len() == n
                    &&& forall|i: int| 0 <= i < n
                        ==> okx_ticker_from(#[trigger] v@[i], items@[i], items@[i].inst_id->0@, index, arrival)
                    &&& (err is Some) == stopped
                    &&& (err matches Some(e) ==> e@ == "Missing instId"@)
                }
            } else if channel@ == "trades"@ {
                r matches OkxAction::Trades(v, err) && {
                    &&& v@.len() == n
                    &&& forall|i: int| 0 <= i < n
                        ==> okx_trade_from(#[trigger] v@[i], items@[i], items@[i].inst_id->0@, index, arrival)
                    &&& (err is Some) == stopped
                    &&& (err matches Some(e) ==> e@ == "Missing instId"@)
                }
            } else {
                r is Ignore
            }
        },
        OkxMessage::Other => r is Ignore,
    }
}

/// `named_prefix` is the position of the first item without an instrument.
proof fn lemma_named_prefix(items: Seq<OkxItem>, k: int)
    requires
        0 <= k <= items.len(),
        forall|j: int| 0 <= j < k ==> (#[trigger] items[j]).inst_id is Some,
        k == items.len() || items[k].inst_id is None,
    ensures
        named_prefix(items) == k,
    decreases k,
{
    if k > 0 {
        lemma_named_prefix(items.drop_first(), k - 1);
    }
}

/// The order id of an OKX trade.
fn order_id(hash: u64) -> (r: [u8; 16])
    ensures
        r@ == okx_order_id(hash),
{
    let lo = (hash % 0x1_0000_0000) as u32;
    let hi = (hash / 0x1_0000_0000) as u32;
    let b0 = (lo % 256) as u8;
    let b1 = ((lo / 0x100) % 256) as u8;
    let b2 = ((lo / 0x1_0000) % 256) as u8;
    let b3 = ((lo / 0x100_0000) % 256) as u8;
    let b4 = (hi % 256) as u8;
    let b5 = ((hi / 0x100) % 256) as u8;
    let b6 = ((hi / 0x1_0000) % 256) as u8;
    let b7 = ((hi / 0x100_0000) % 256) as u8;
    let r: [u8; 16] = [b0, b1, b2, b3, b4, b5, b6, b7, b7, b6, b5, b4, b3, b2, b1, b0];
    assert(r@ =~= okx_order_id(hash));
    r
}

fn item_time(ts: &Option<String>, arrival: (u32, u32)) -> (r: (u32, u32))
    ensures
        r == okx_time(*ts, arrival),
{
    match ts {
        Some(t) => match parse_u64(t.as_str()) {
            Some(ms) => crate::utils::parse_timestamp_millis(ms),
            None => arrival,
        },
        None => arrival,
    }
}

fn okx_normalized(mapper: &SymbolMapper, inst: &str) -> (r: String)
    ensures
        r@ == okx_symbol(mapper.index(), inst@),
{
    match mapper.normalize(ExchangeId::OKX, inst) {
        Some(n) => n,
        None => String::from_str(inst),
    }
}

fn read_ticker(item: &OkxItem, inst: &String, mapper: &SymbolMapper, arrival: (u32, u32)) -> (q: MarketUpdate)
    ensures
        okx_ticker_from(q, *item, inst@, mapper.index(), arrival),
{
    MarketUpdate {
        exchange: ExchangeId::OKX,
        symbol: okx_normalized(mapper, inst.as_str()),
        time: Some(item_time(&item.ts, arrival)),
        price: copied(&item.last),
        volume: copied(&item.last_size),
        best_bid: copied(&item.bid),
        best_ask: copied(&item.ask),
        open: copied(&item.open_24h),
    }
}

fn read_trade(item: &OkxItem, inst: &String, mapper: &SymbolMapper, arrival: (u32, u32)) -> (t: TradeUpdate)
    ensures
        okx_trade_from(t, *item, inst@, mapper.index(), arrival),
{
    let id: u64 = match &item.trade_id {
        Some(x) => match parse_u64(x.as_str()) {
            Some(v) => v,
            None => 0,
        },
        None => 0,
    };
    let time = item_time(&item.ts, arrival);
    let ids = order_id(trade_hash(id, time.0, inst.as_str()));
    TradeUpdate {
        exchange: ExchangeId::OKX,
        symbol: okx_normalized(mapper, inst.as_str()),
        trade_id: id,
        time: Some(time),
        price: copied(&item.price),
        size: copied(&item.size),
        side: if is_word(&item.side, "sell") { TradeSide::Sell } else { TradeSide::Buy },
        maker_order_id: ids,
        taker_order_id: ids,
    }
}

/// What to do with an OKX message, given the time of arrival (seconds,
/// nanoseconds), which stamps items that carry no time of their own.
pub fn okx_action(msg: &OkxMessage, mapper: &SymbolMapper, arrival: (u32, u32)) -> (r: OkxAction)
    ensures
        okx_action_spec(*msg, mapper.index(), arrival, r),
{
    proof {
        reveal_strlit("tickers");
        reveal_strlit("trades");
        assert("tickers"@[1] != "trades"@[1]);
    }
    match msg {
        OkxMessage::Event { event, code, msg } => {
            if str_eq(event.as_str(), "error") {
                let mut m = String::from_str("OKX error: ");
                match code {
                    Some(c) => m.append(c.as_str()),
                    None => {},
                }
                m.append(" - ");
                match msg {
                    Some(x) => m.append(x.as_str()),
                    None => m.append("Unknown error"),
                }
                OkxAction::ExchangeError(m)
            } else {
                OkxAction::Ignore
            }
        },
        OkxMessage::Data { channel, items } => {
            let tickers = str_eq(channel.as_str(), "tickers");
            if !tickers && !str_eq(channel.as_str(), "trades") {
                return OkxAction::Ignore;
            }
            let mut markets: Vec<MarketUpdate> = Vec::new();
            let mut trades: Vec<TradeUpdate> = Vec::new();
            let mut i: usize = 0;
            while i < items.len()
                invariant
                    0 <= i <= items@.len(),
                    forall|j: int| 0 <= j < i ==> (#[trigger] items@[j]).inst_id is Some,
                    tickers ==> markets@.len() == i,
                    !tickers ==> trades@.len() == i,
                    tickers ==> forall|j: int| 0 <= j < i
                        ==> okx_ticker_from(#[trigger] markets@[j], items@[j], items@[j].inst_id->0@, mapper.index(), arrival),
                    !tickers ==> forall|j: int| 0 <= j < i
                        ==> okx_trade_from(#[trigger] trades@[j], items@[j], items@[j].inst_id->0@, mapper.index(), arrival),
                ensures
                    0 <= i <= items@.len(),
                    forall|j: int| 0 <= j < i ==> (#[trigger] items@[j]).inst_id is Some,
                    i == items@.len() || items@[i as int].inst_id is None,
                    tickers ==> markets@.len() == i,
                    !tickers ==> trades@.len() == i,
                    tickers ==> forall|j: int| 0 <= j < i
                        ==> okx_ticker_from(#[trigger] markets@[j], items@[j], items@[j].inst_id->0@, mapper.index(), arrival),
                    !tickers ==> forall|j: int| 0 <= j < i
                        ==> okx_trade_from(#[trigger] trades@[j], items@[j], items@[j].inst_id->0@, mapper.index(), arrival),
                decreases items@.len() - i,
            {
                let item = &items[i];
                match &item.inst_id {
                    None => break,
                    Some(inst) => {
                        if tickers {
                            markets.push(read_ticker(item, inst, mapper, arrival));
                        } else {
                            trades.push(read_trade(item, inst, mapper, arrival));
                        }
                    },
                }
                i = i + 1;
            }
            proof {
                lemma_named_prefix(items@, i as int);
            }
            let err = if i < items.len() { Some(String::from_str("Missing instId")) } else { None };
            if tickers {
                OkxAction::Markets(markets, err)
            } else {
                OkxAction::Trades(trades, err)
            }
        },
        OkxMessage::Other => OkxAction::Ignore,
    }
}

/// Every update read from an OKX ticker message has `last` as its price and
/// `open24h` as its opening price (by which the side is judged), `lastSz` as
/// its volume and `bidPx`, `askPx` as its best bid and ask; every trade read
/// from a trade message is a sell exactly when its side says "sell", has both
/// order ids equal, and carries `px` and `sz` as its price and size.
pub proof fn law_okx_fields(msg: OkxMessage, index: Map<Seq<char>, String>, arrival: (u32, u32), r: OkxAction)
    requires
        msg is Data,
        okx_action_spec(msg, index, arrival, r),
    ensures
        msg->channel@ == "tickers"@ ==> r is Markets && forall|i: int| 0 <= i < r->Markets_0@.len() ==> {
            let it = msg->items@[i];
            let q = #[trigger] r->Markets_0@[i];
            &&& q.exchange == ExchangeId::OKX
            &&& q.price == it.last
            &&& q.open == it.open_24h
            &&& q.volume == it.last_size
            &&& q.best_bid == it.bid
            &&& q.best_ask == it.ask
        },
        msg->channel@ == "trades"@ ==> r is Trades && forall|i: int| 0 <= i < r->Trades_0@.len() ==> {
            let it = msg->items@[i];
            let t = #[trigger] r->Trades_0@[i];
            &&& t.exchange == ExchangeId::OKX
            &&& (t.side == TradeSide::Sell <==> (it.side matches Some(s) && s@ == "sell"@))
            &&& t.maker_order_id@ == t.taker_order_id@
            &&& t.price == it.price
            &&& t.size == it.size
        },
{
    reveal_strlit("tickers");
    reveal_strlit("trades");
    assert("tickers"@[1] != "trades"@[1]);
}

} // verus!
