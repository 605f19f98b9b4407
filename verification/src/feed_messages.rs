//! What the logger does with each message an exchange feed sends: the fields
//! it reads (prices and sizes kept as their decimal text), and the action it
//! takes: buffer a market update or a trade, note a heartbeat, report an
//! exchange error or a malformed message, or ignore the message.
use vstd::prelude::*;
use crate::data_types::{ExchangeId, TradeSide};
use crate::data_buffer::{le32, le64};
use crate::symbol_mapper::{index_key, SymbolMapper};
use crate::text::str_eq;
use crate::utils::{
    binance_quotes, normalize_symbol_binance, parse_timestamp_millis, split_pair, uuid_text_bytes, uuid_to_bytes,
};

verus! {

/// The event object of a Binance combined-stream message (its `data`): the
/// fields the logger reads, each present only where the message holds it with
/// the expected JSON type.
pub struct BinanceEvent {
    /// `e`: the event type.
    pub event_type: Option<String>,
    /// `s`: the exchange's symbol.
    pub symbol: Option<String>,
    /// `E`: the event time, in milliseconds.
    pub event_time: Option<u64>,
    /// `T`: the trade time, in milliseconds.
    pub trade_time: Option<u64>,
    /// `t`: the trade id.
    pub trade_id: Option<u64>,
    /// `c`: the last price.
    pub last_price: Option<String>,
    /// `o`: the opening price of the 24-hour window.
    pub open_price: Option<String>,
    /// `v`: the 24-hour volume.
    pub volume: Option<String>,
    /// `b`: the best bid.
    pub best_bid: Option<String>,
    /// `a`: the best ask.
    pub best_ask: Option<String>,
    /// `p`: the trade price.
    pub price: Option<String>,
    /// `q`: the trade quantity.
    pub quantity: Option<String>,
    /// `m`: whether the buyer was the maker.
    pub buyer_is_maker: Option<bool>,
}

/// A Binance combined-stream message.
pub struct BinanceMessage {
    /// `data`, if the message has it.
    pub data: Option<BinanceEvent>,
    /// Whether the message has a `result` (a reply to a subscription).
    pub has_result: bool,
    /// The `error` value, as text, if the message has one.
    pub error: Option<String>,
}

/// A Coinbase feed message: the fields the logger reads, each present only
/// where the message holds it with the expected JSON type.
pub struct CoinbaseMessage {
    /// `type`.
    pub msg_type: Option<String>,
    pub product_id: Option<String>,
    /// `time`, an RFC 3339 timestamp.
    pub time: Option<String>,
    pub price: Option<String>,
    pub last_size: Option<String>,
    pub best_bid: Option<String>,
    pub best_ask: Option<String>,
    pub open_24h: Option<String>,
    pub trade_id: Option<u64>,
    pub sequence: Option<u64>,
    pub size: Option<String>,
    pub side: Option<String>,
    pub maker_order_id: Option<String>,
    pub taker_order_id: Option<String>,
    /// `message`, the text of an error.
    pub message: Option<String>,
}

/// A ticker update to buffer. `time` is (seconds, nanoseconds), or `None` for
/// the time of arrival; prices and volume are decimal text.
pub struct MarketUpdate {
    pub exchange: ExchangeId,
    pub symbol: String,
    pub time: Option<(u32, u32)>,
    pub price: Option<String>,
    pub volume: Option<String>,
    pub best_bid: Option<String>,
    pub best_ask: Option<String>,
    /// The opening price the side is judged by: buy when the price is at
    /// least this, sell when it is lower.
    pub open: Option<String>,
}

/// A trade to buffer. `time` is (seconds, nanoseconds), or `None` for the
/// time of arrival; price and size are decimal text.
pub struct TradeUpdate {
    pub exchange: ExchangeId,
    pub symbol: String,
    pub trade_id: u64,
    pub time: Option<(u32, u32)>,
    pub price: Option<String>,
    pub size: Option<String>,
    pub side: TradeSide,
    pub maker_order_id: [u8; 16],
    pub taker_order_id: [u8; 16],
}

/// What to do with a feed message.
pub enum FeedAction {
    /// Buffer a ticker update.
    Market(MarketUpdate),
    /// Buffer a trade (and count it in the analytics).
    Trade(TradeUpdate),
    /// A heartbeat: nothing to store.
    Heartbeat,
    /// The exchange reported an error.
    ExchangeError(String),
    /// The message lacks a field it needs; the text says which.
    Malformed(String),
    /// Nothing to do.
    Ignore,
}

/// Sixteen zero bytes.
pub open spec fn zero_id() -> Seq<u8> {
    Seq::new(16, |i: int| 0u8)
}

/// Eight zero bytes.
pub open spec fn zeros8() -> Seq<u8> {
    Seq::new(8, |i: int| 0u8)
}

/// A millisecond timestamp as (seconds kept to 32 bits, nanoseconds).
pub open spec fn millis_time(ms: u64) -> (u32, u32) {
    (((ms / 1000) as int % 0x1_0000_0000) as u32, ((ms % 1000) * 1_000_000) as u32)
}

/// The normalized form of a Binance symbol: the mapped one, else the pair split
/// before its quote asset.
pub open spec fn binance_symbol(index: Map<Seq<char>, String>, s: Seq<char>) -> Seq<char> {
    if index.contains_key(index_key(ExchangeId::Binance, s)) {
        index[index_key(ExchangeId::Binance, s)]@
    } else {
        split_pair(s, binance_quotes())
    }
}

/// The side of a Binance trade: a sell when the buyer was the maker.
pub open spec fn binance_side(buyer_is_maker: Option<bool>) -> TradeSide {
    if buyer_is_maker == Some(true) { TradeSide::Sell } else { TradeSide::Buy }
}

/// `r` is what the logger does with the Binance message `msg`, given the
/// mapper's index.
pub open spec fn binance_action_spec(msg: BinanceMessage, index: Map<Seq<char>, String>, r: FeedAction) -> bool {
    match msg.data {
        Some(ev) => {
            if ev.event_type matches Some(t) && t@ == "24hrTicker"@ {
                match ev.symbol {
                    None => r matches FeedAction::Malformed(m) && m@ == "Missing symbol"@,
                    Some(s) => r matches FeedAction::Market(q) && {
                        &&& q.exchange == ExchangeId::Binance
                        &&& q.symbol@ == binance_symbol(index, s@)
                        &&& q.time == (match ev.event_time { Some(ms) => Some(millis_time(ms)), None => None })
                        &&& q.price == ev.last_price
                        &&& q.volume == ev.volume
                        &&& q.best_bid == ev.best_bid
                        &&& q.best_ask == ev.best_ask
                        &&& q.open == ev.open_price
                    },
                }
            } else if ev.event_type matches Some(t) && t@ == "trade"@ {
                match ev.symbol {
                    None => r matches FeedAction::Malformed(m) && m@ == "Missing symbol"@,
                    Some(s) => match ev.trade_id {
                        None => r matches FeedAction::Malformed(m) && m@ == "Missing trade ID"@,
                        Some(id) => r matches FeedAction::Trade(t) && {
                            &&& t.exchange == ExchangeId::Binance
                            &&& t.symbol@ == binance_symbol(index, s@)
                            &&& t.trade_id == id
                            &&& t.time == (match ev.trade_time { Some(ms) => Some(millis_time(ms)), None => None })
                            &&& t.price == ev.price
                            &&& t.size == ev.quantity
                            &&& t.side == binance_side(ev.buyer_is_maker)
                            &&& t.maker_order_id@ == le64(id) + zeros8()
                            &&& t.taker_order_id@ == zeros8() + le64(id)
                        },
                    },
                }
            } else {
                r is Ignore
            }
        },
        None => if msg.has_result {
            r is Ignore
        } else {
            match msg.error {
                Some(e) => r matches FeedAction::ExchangeError(m) && m@ == "Binance error: "@ + e@,
                None => r is Ignore,
            }
        },
    }
}

/// Names the instant that `chrono::DateTime::parse_from_rfc3339` reads from a
/// text, as (whole seconds since the Unix epoch, nanoseconds), or `None` where
/// it refuses the text.
pub uninterp spec fn rfc3339_instant(text: Seq<char>) -> Option<(i64, u32)>;

/// Parses an RFC 3339 timestamp (`chrono::DateTime::parse_from_rfc3339`, then
/// `timestamp` and `timestamp_subsec_nanos`). Claimed: the result is the
/// (named) reading of the text, a function of the text alone.
#[verifier::external_body]
pub fn parse_rfc3339(text: &str) -> (r: Option<(i64, u32)>)
    ensures
        r == rfc3339_instant(text@),
{
    chrono::DateTime::parse_from_rfc3339(text).ok().map(|dt| (dt.timestamp(), dt.timestamp_subsec_nanos()))
}

/// The time of a Coinbase message: its RFC 3339 `time`, the seconds kept to 32
/// bits; `None` where it has none or it does not parse.
pub open spec fn coinbase_time(time: Option<String>) -> Option<(u32, u32)> {
    match time {
        Some(t) => match rfc3339_instant(t@) {
            Some(p) => Some((p.0 as u32, p.1)),
            None => None,
        },
        None => None,
    }
}

/// The bytes of an order id given as text: the UUID it spells, else zeros.
pub open spec fn order_id_bytes(id: Option<String>) -> Seq<u8> {
    match id {
        Some(t) => match uuid_text_bytes(t@) {
            Some(b) => b,
            None => zero_id(),
        },
        None => zero_id(),
    }
}

/// The side of a Coinbase trade: a sell only when it says "sell".
pub open spec fn coinbase_side(side: Option<String>) -> TradeSide {
    if side matches Some(s) && s@ == "sell"@ { TradeSide::Sell } else { TradeSide::Buy }
}

/// `r` is what the logger does with the Coinbase message `msg`.
pub open spec fn coinbase_action_spec(msg: CoinbaseMessage, r: FeedAction) -> bool {
    match msg.msg_type {
        Some(t) => if t@ == "ticker"@ {
            match msg.product_id {
                None => r matches FeedAction::Malformed(m) && m@ == "Missing product_id"@,
                Some(p) => r matches FeedAction::Market(q) && {
                    &&& q.exchange == ExchangeId::Coinbase
                    &&& q.symbol == p
                    &&& q.time == coinbase_time(msg.time)
                    &&& q.price == msg.price
                    &&& q.volume == msg.last_size
                    &&& q.best_bid == msg.best_bid
                    &&& q.best_ask == msg.best_ask
                    &&& q.open == msg.open_24h
                },
            }
        } else if t@ == "match"@ {
            match msg.product_id {
                None => r matches FeedAction::Malformed(m) && m@ == "Missing product_id"@,
                Some(p) => r matches FeedAction::Trade(d) && {
                    &&& d.exchange == ExchangeId::Coinbase
                    &&& d.symbol == p
                    &&& d.trade_id == (match msg.trade_id {
                        Some(id) => id,
                        None => match msg.sequence { Some(s) => s, None => 0 },
                    })
                    &&& d.time == coinbase_time(msg.time)
                    &&& d.price == msg.price
                    &&& d.size == msg.size
                    &&& d.side == coinbase_side(msg.side)
                    &&& d.maker_order_id@ == order_id_bytes(msg.maker_order_id)
                    &&& d.taker_order_id@ == order_id_bytes(msg.taker_order_id)
                },
            }
        } else if t@ == "error"@ {
            r matches FeedAction::ExchangeError(m) && m@ == (match msg.message {
                Some(x) => x@,
                None => "Unknown error"@,
            })
        } else if t@ == "heartbeat"@ {
            r is Heartbeat
        } else {
            r is Ignore
        }
        None => r is Ignore,
    }
}

/// The two order ids that stand in for a Binance trade's: the trade id's
/// little-endian bytes first in the maker id, last in the taker id.
fn binance_order_ids(id: u64) -> (r: ([u8; 16], [u8; 16]))
    ensures
        r.0@ == le64(id) + zeros8(),
        r.1@ == zeros8() + le64(id),
{
    let lo = (id % 0x1_0000_0000) as u32;
    let hi = (id / 0x1_0000_0000) as u32;
    let b0 = (lo % 256) as u8;
    let b1 = ((lo / 0x100) % 256) as u8;
    let b2 = ((lo / 0x1_0000) % 256) as u8;
    let b3 = ((lo / 0x100_0000) % 256) as u8;
    let b4 = (hi % 256) as u8;
    let b5 = ((hi / 0x100) % 256) as u8;
    let b6 = ((hi / 0x1_0000) % 256) as u8;
    let b7 = ((hi / 0x100_0000) % 256) as u8;
    let maker: [u8; 16] = [b0, b1, b2, b3, b4, b5, b6, b7, 0, 0, 0, 0, 0, 0, 0, 0];
    let taker: [u8; 16] = [0, 0, 0, 0, 0, 0, 0, 0, b0, b1, b2, b3, b4, b5, b6, b7];
    assert(maker@ =~= le64(id) + zeros8());
    assert(taker@ =~= zeros8() + le64(id));
    (maker, taker)
}

/// The normalized form of a Binance symbol.
fn binance_normalized(mapper: &SymbolMapper, s: &str) -> (r: String)
    ensures
        r@ == binance_symbol(mapper.index(), s@),
{
    match mapper.normalize(ExchangeId::Binance, s) {
        Some(n) => n,
        None => normalize_symbol_binance(s),
    }
}

fn millis_pair(ms: Option<u64>) -> (r: Option<(u32, u32)>)
    ensures
        r == (match ms { Some(m) => Some(millis_time(m)), None => None }),
{
    match ms {
        Some(m) => Some(parse_timestamp_millis(m)),
        None => None,
    }
}

/// A copy of an optional text.
pub(crate) fn copied(o: &Option<String>) -> (r: Option<String>)
    ensures
        r == *o,
{
    match o {
        Some(t) => Some(t.clone()),
        None => None,
    }
}

/// Whether an optional text is present and equal to `word`.
pub(crate) fn is_word(o: &Option<String>, word: &str) -> (r: bool)
    ensures
        r == (o matches Some(t) && t@ == word@),
{
    match o {
        Some(t) => str_eq(t.as_str(), word),
        None => false,
    }
}

/// What to do with a Binance message.
pub fn binance_action(msg: &BinanceMessage, mapper: &SymbolMapper) -> (r: FeedAction)
    ensures
        binance_action_spec(*msg, mapper.index(), r),
{
    match &msg.data {
        Some(ev) => {
            if is_word(&ev.event_type, "24hrTicker") {
                match &ev.symbol {
                    None => FeedAction::Malformed(String::from_str("Missing symbol")),
                    Some(s) => {
                        let symbol = binance_normalized(mapper, s.as_str());
                        FeedAction::Market(MarketUpdate {
                            exchange: ExchangeId::Binance,
                            symbol,
                            time: millis_pair(ev.event_time),
                            price: copied(&ev.last_price),
                            volume: copied(&ev.volume),
                            best_bid: copied(&ev.best_bid),
                            best_ask: copied(&ev.best_ask),
                            open: copied(&ev.open_price),
                        })
                    },
                }
            } else if is_word(&ev.event_type, "trade") {
                match &ev.symbol {
                    None => FeedAction::Malformed(String::from_str("Missing symbol")),
                    Some(s) => match ev.trade_id {
                        None => FeedAction::Malformed(String::from_str("Missing trade ID")),
                        Some(id) => {
                            let symbol = binance_normalized(mapper, s.as_str());
                            let (maker, taker) = binance_order_ids(id);
                            let side = match ev.buyer_is_maker {
                                Some(true) => TradeSide::Sell,
                                _ => TradeSide::Buy,
                            };
                            FeedAction::Trade(TradeUpdate {
                                exchange: ExchangeId::Binance,
                                symbol,
                                trade_id: id,
                                time: millis_pair(ev.trade_time),
                                price: copied(&ev.price),
                                size: copied(&ev.quantity),
                                side,
                                maker_order_id: maker,
                                taker_order_id: taker,
                            })
                        },
                    },
                }
            } else {
                FeedAction::Ignore
            }
        },
        None => {
            if msg.has_result {
                FeedAction::Ignore
            } else {
                match &msg.error {
                    Some(e) => {
                        let mut m = String::from_str("Binance error: ");
                        m.append(e.as_str());
                        FeedAction::ExchangeError(m)
                    },
                    None => FeedAction::Ignore,
                }
            }
        },
    }
}

fn coinbase_time_of(time: &Option<String>) -> (r: Option<(u32, u32)>)
    ensures
        r == coinbase_time(*time),
{
    match time {
        Some(t) => match parse_rfc3339(t.as_str()) {
            Some(p) => Some((p.0 as u32, p.1)),
            None => None,
        },
        None => None,
    }
}

fn order_id_of(id: &Option<String>) -> (r: [u8; 16])
    ensures
        r@ == order_id_bytes(*id),
{
    let zero: [u8; 16] = [0u8; 16];
    assert(zero@ =~= zero_id());
    match id {
        Some(t) => match uuid_to_bytes(t.as_str()) {
            Ok(b) => b,
            Err(_) => zero,
        },
        None => zero,
    }
}

/// What to do with a Coinbase message.
pub fn coinbase_action(msg: &CoinbaseMessage) -> (r: FeedAction)
    ensures
        coinbase_action_spec(*msg, r),
{
    if msg.msg_type.is_none() {
        FeedAction::Ignore
    } else if is_word(&msg.msg_type, "ticker") {
        match &msg.product_id {
            None => FeedAction::Malformed(String::from_str("Missing product_id")),
            Some(p) => FeedAction::Market(MarketUpdate {
                exchange: ExchangeId::Coinbase,
                symbol: p.clone(),
                time: coinbase_time_of(&msg.time),
                price: copied(&msg.price),
                volume: copied(&msg.last_size),
                best_bid: copied(&msg.best_bid),
                best_ask: copied(&msg.best_ask),
                open: copied(&msg.open_24h),
            }),
        }
    } else if is_word(&msg.msg_type, "match") {
        match &msg.product_id {
            None => FeedAction::Malformed(String::from_str("Missing product_id")),
            Some(p) => {
                let side = if is_word(&msg.side, "sell") { TradeSide::Sell } else { TradeSide::Buy };
                let trade_id = match msg.trade_id {
                    Some(id) => id,
                    None => match msg.sequence {
                        Some(s) => s,
                        None => 0,
                    },
                };
                FeedAction::Trade(TradeUpdate {
                    exchange: ExchangeId::Coinbase,
                    symbol: p.clone(),
                    trade_id,
                    time: coinbase_time_of(&msg.time),
                    price: copied(&msg.price),
                    size: copied(&msg.size),
                    side,
                    maker_order_id: order_id_of(&msg.maker_order_id),
                    taker_order_id: order_id_of(&msg.taker_order_id),
                })
            },
        }
    } else if is_word(&msg.msg_type, "error") {
        match &msg.message {
            Some(x) => FeedAction::ExchangeError(x.clone()),
            None => FeedAction::ExchangeError(String::from_str("Unknown error")),
        }
    } else if is_word(&msg.msg_type, "heartbeat") {
        FeedAction::Heartbeat
    } else {
        FeedAction::Ignore
    }
}

/// A Binance trade event that names its symbol and trade id is stored as a
/// trade carrying that id, price and quantity; it is a sell exactly when the
/// buyer was the maker (`m` is true), and a buy otherwise, `m` false or absent
/// included.
pub proof fn law_binance_trade_side(msg: BinanceMessage, index: Map<Seq<char>, String>, r: FeedAction)
    requires
        msg.data is Some,
        msg.data->0.event_type matches Some(t) && t@ == "trade"@,
        msg.data->0.symbol is Some,
        msg.data->0.trade_id is Some,
        binance_action_spec(msg, index, r),
    ensures
        r is Trade,
        ({
            let ev = msg.data->0;
            let d = r->Trade_0;
            &&& d.exchange == ExchangeId::Binance
            &&& d.trade_id == ev.trade_id->0
            &&& d.price == ev.price
            &&& d.size == ev.quantity
            &&& (d.side == TradeSide::Sell <==> ev.buyer_is_maker == Some(true))
            &&& (ev.buyer_is_maker == Some(false) ==> d.side == TradeSide::Buy)
            &&& (ev.buyer_is_maker is None ==> d.side == TradeSide::Buy)
        }),
{
    reveal_strlit("trade");
    reveal_strlit("24hrTicker");
    assert("trade"@.len() != "24hrTicker"@.len());
}

/// A Binance 24-hour ticker that names its symbol is stored as a market
/// update whose price is the last price `c`, whose opening price (by which
/// the side is judged) is `o`, and whose volume, best bid and best ask are
/// `v`, `b` and `a`; its time is the event time `E` split into seconds and
/// nanoseconds.
pub proof fn law_binance_ticker_fields(msg: BinanceMessage, index: Map<Seq<char>, String>, r: FeedAction)
    requires
        msg.data is Some,
        msg.data->0.event_type matches Some(t) && t@ == "24hrTicker"@,
        msg.data->0.symbol is Some,
        binance_action_spec(msg, index, r),
    ensures
        r is Market,
        ({
            let ev = msg.data->0;
            let q = r->Market_0;
            &&& q.exchange == ExchangeId::Binance
            &&& q.price == ev.last_price
            &&& q.open == ev.open_price
            &&& q.volume == ev.volume
            &&& q.best_bid == ev.best_bid
            &&& q.best_ask == ev.best_ask
            &&& (ev.event_time is None <==> q.time is None)
            &&& (ev.event_time matches Some(ms) ==> q.time matches Some(p)
                && p.1 == (ms % 1000) * 1_000_000 && p.0 == (ms / 1000) % 0x1_0000_0000)
        }),
{
}

/// A Coinbase ticker that names its product is stored as a market update for
/// that product whose price is `price` and whose opening price (by which the
/// side is judged) is `open_24h`, with `last_size` as its volume and the best
/// bid and ask as given.
pub proof fn law_coinbase_ticker_fields(msg: CoinbaseMessage, r: FeedAction)
    requires
        msg.msg_type matches Some(t) && t@ == "ticker"@,
        msg.product_id is Some,
        coinbase_action_spec(msg, r),
    ensures
        r is Market,
        ({
            let q = r->Market_0;
            &&& q.exchange == ExchangeId::Coinbase
            &&& q.symbol == msg.product_id->0
            &&& q.price == msg.price
            &&& q.open == msg.open_24h
            &&& q.volume == msg.last_size
            &&& q.best_bid == msg.best_bid
            &&& q.best_ask == msg.best_ask
        }),
{
}

/// A Coinbase match that names its product is stored as a trade for that
/// product: a sell exactly when its side says "sell"; its id is `trade_id`,
/// else `sequence`, else 0; its price and size are as given.
pub proof fn law_coinbase_match_fields(msg: CoinbaseMessage, r: FeedAction)
    requires
        msg.msg_type matches Some(t) && t@ == "match"@,
        msg.product_id is Some,
        coinbase_action_spec(msg, r),
    ensures
        r is Trade,
        ({
            let d = r->Trade_0;
            &&& d.exchange == ExchangeId::Coinbase
            &&& d.symbol == msg.product_id->0
            &&& d.price == msg.price
            &&& d.size == msg.size
            &&& (d.side == TradeSide::Sell <==> (msg.side matches Some(s) && s@ == "sell"@))
            &&& (msg.trade_id matches Some(id) ==> d.trade_id == id)
            &&& (msg.trade_id is None ==> (msg.sequence matches Some(q) ==> d.trade_id == q))
            &&& (msg.trade_id is None && msg.sequence is None ==> d.trade_id == 0)
        }),
{
    reveal_strlit("ticker");
    reveal_strlit("match");
    assert("ticker"@.len() != "match"@.len());
}

} // verus!
