//! What the logger does with each Bitfinex feed message. Bitfinex names its
//! data by channel id: a "subscribed" event tells which channel (ticker or
//! trades) and which symbol an id stands for, and later arrays carry only the
//! id. Prices, sizes and changes are kept as the text of their JSON numbers.
use vstd::prelude::*;
use std::collections::HashMap;
use crate::data_types::{to_uppercase, uppercase_of};
use crate::feed_messages::{copied, is_word, millis_time};
use crate::text::str_eq;

verus! {

broadcast use vstd::std_specs::hash::group_hash_axioms;

/// The ticker fields of a Bitfinex ticker update, each the text of its JSON
/// number, `None` where it is null or missing.
pub struct BitfinexTickerFields {
    pub bid: Option<String>,
    pub ask: Option<String>,
    pub daily_change: Option<String>,
    pub last_price: Option<String>,
    pub volume: Option<String>,
}

/// One trade as Bitfinex sends it: [ID, MTS, AMOUNT, PRICE]. A field is `None`
/// where it is null, missing or of another JSON type.
pub struct BitfinexTradeFields {
    pub id: Option<i64>,
    pub millis: Option<i64>,
    pub amount: Option<String>,
    pub price: Option<String>,
}

/// The trades a channel array may carry.
pub enum BitfinexTrades {
    /// A snapshot, [ID, [[..], [..], ..]]: each item is `Some` where it is an
    /// array of at least four elements.
    Snapshot(Vec<Option<BitfinexTradeFields>>),
    /// A single update, [ID, "te" or "tu", [..]]: `Some` where its trade is an
    /// array of at least four elements.
    Update(Option<BitfinexTradeFields>),
    /// Neither shape.
    NoTrades,
}

/// A Bitfinex feed message.
pub enum BitfinexMessage {
    /// An array whose first element is an integer channel id.
    Channel {
        chan_id: i64,
        /// Exactly two elements, the second the text "hb".
        heartbeat: bool,
        /// The ticker fields, where the second element is an array of at least
        /// ten elements.
        ticker: Option<BitfinexTickerFields>,
        trades: BitfinexTrades,
    },
    /// An object: its `event`, `chanId`, `channel`, `symbol` and `msg` where
    /// they have the expected JSON type.
    Event {
        event: Option<String>,
        chan_id: Option<i64>,
        channel: Option<String>,
        symbol: Option<String>,
        msg: Option<String>,
    },
    /// Anything else (including an array that does not start with an integer).
    Other,
}

/// A ticker update to store, for the channel's symbol.
pub struct BitfinexTick {
    pub symbol: String,
    pub best_bid: Option<String>,
    pub best_ask: Option<String>,
    pub price: Option<String>,
    pub volume: Option<String>,
    /// The side is a buy when this is at least zero.
    pub daily_change: Option<String>,
}

/// A trade to store, for the channel's symbol. The side is a buy when the
/// amount is at least zero, and the size is the amount's magnitude.
pub struct BitfinexTrade {
    pub symbol: String,
    pub trade_id: u64,
    pub time: (u32, u32),
    pub price: Option<String>,
    pub amount: Option<String>,
}

/// What to do with a Bitfinex message.
pub enum BitfinexAction {
    Ticker(BitfinexTick),
    Trades(Vec<BitfinexTrade>),
    /// The exchange reported an error.
    ExchangeError(String),
    Ignore,
}

/// The channels a connection has subscribed to: channel id to (channel name,
/// symbol).
pub struct BitfinexChannels {
    map: HashMap<i64, (String, String)>,
}

impl View for BitfinexChannels {
    type V = Map<i64, (String, String)>;

    closed spec fn view(&self) -> Map<i64, (String, String)> {
        self.map@
    }
}

impl BitfinexChannels {
    /// No channel yet.
    pub fn new() -> (r: BitfinexChannels)
        ensures
            r@ == Map::<i64, (String, String)>::empty(),
    {
        BitfinexChannels { map: HashMap::new() }
    }

    /// The channel name and symbol of a channel id, if subscribed.
    pub fn get(&self, chan_id: i64) -> (r: Option<(String, String)>)
        ensures
            r is Some <==> self@.contains_key(chan_id),
            r matches Some(v) ==> v == self@[chan_id],
    {
        match self.map.get(&chan_id) {
            Some(v) => Some((v.0.clone(), v.1.clone())),
            None => None,
        }
    }
}

/// The trades that the present items stand for, in order.
pub open spec fn present_trades(items: Seq<Option<BitfinexTradeFields>>) -> Seq<BitfinexTradeFields>
    decreases items.len(),
{
    if items.len() == 0 {
        Seq::empty()
    } else {
        let before = present_trades(items.drop_last());
        match items.last() {
            Some(f) => before.push(f),
            None => before,
        }
    }
}

/// The trades a channel array carries.
pub open spec fn carried_trades(t: BitfinexTrades) -> Seq<BitfinexTradeFields> {
    match t {
        BitfinexTrades::Snapshot(items) => present_trades(items@),
        BitfinexTrades::Update(Some(f)) => seq![f],
        _ => Seq::empty(),
    }
}

/// `t` is the trade read from `f` on the channel of `symbol`: a missing id
/// counts as 0 and a missing time as the epoch.
pub open spec fn trade_from(t: BitfinexTrade, f: BitfinexTradeFields, symbol: String) -> bool {
    &&& t.symbol == symbol
    &&& t.trade_id == (match f.id { Some(i) => i as u64, None => 0u64 })
    &&& t.time == millis_time(match f.millis { Some(m) => m as u64, None => 0u64 })
    &&& t.price == f.price
    &&& t.amount == f.amount
}

/// The subscriptions after `msg`: a "subscribed" event that names its channel
/// id, channel and symbol files them under the id.
pub open spec fn channels_after(channels: Map<i64, (String, String)>, msg: BitfinexMessage) -> Map<i64, (String, String)> {
    match msg {
        BitfinexMessage::Event { event, chan_id, channel, symbol, msg: _ } => {
            if event matches Some(e) && e@ == "subscribed"@ && chan_id is Some && channel is Some && symbol is Some {
                channels.insert(chan_id->0, (channel->0, symbol->0))
            } else {
                channels
            }
        },
        _ => channels,
    }
}

/// `r` is what the logger does with `msg`, given the subscriptions before it.
pub open spec fn bitfinex_action_spec(channels: Map<i64, (String, String)>, msg: BitfinexMessage, r: BitfinexAction) -> bool {
    match msg {
        BitfinexMessage::Channel { chan_id, heartbeat, ticker, trades } => {
            if !channels.contains_key(chan_id) || heartbeat {
                r is Ignore
            } else if channels[chan_id].0@ == "ticker"@ {
                match ticker {
                    Some(f) => r matches BitfinexAction::Ticker(t) && {
                        &&& t.symbol == channels[chan_id].1
                        &&& t.best_bid == f.bid
                        &&& t.best_ask == f.ask
                        &&& t.price == f.last_price
                        &&& t.volume == f.volume
                        &&& t.daily_change == f.daily_change
                    },
                    None => r is Ignore,
                }
            } else if channels[chan_id].0@ == "trades"@ {
                let fs = carried_trades(trades);
                if fs.len() == 0 {
                    r is Ignore
                } else {
                    r matches BitfinexAction::Trades(v) && v@.len() == fs.len()
                        && forall|i: int| 0 <= i < fs.len() ==> trade_from(#[trigger] v@[i], fs[i], channels[chan_id].1)
                }
            } else {
                r is Ignore
            }
        },
        BitfinexMessage::Event { event, chan_id: _, channel: _, symbol: _, msg } => {
            if event matches Some(e) && e@ == "error"@ {
                r matches BitfinexAction::ExchangeError(m) && m@ == "Bitfinex error: "@ + (match msg {
                    Some(x) => x@,
                    None => "Unknown error"@,
                })
            } else {
                r is Ignore
            }
        },
        BitfinexMessage::Other => r is Ignore,
    }
}

/// Once a "subscribed" event has filed a trades channel under an id, every
/// trade that a later message on that id carries is stored for the symbol
/// the event named, whatever was filed under the id before.
pub proof fn law_subscription_routes_trades(
    channels: Map<i64, (String, String)>,
    event: String,
    id: i64,
    channel: String,
    symbol: String,
    later: BitfinexMessage,
    r: BitfinexAction,
)
    requires
        event@ == "subscribed"@,
        channel@ == "trades"@,
        later matches BitfinexMessage::Channel { chan_id, heartbeat, ticker: _, trades }
            && chan_id == id && !heartbeat && carried_trades(trades).len() > 0,
        bitfinex_action_spec(
            channels_after(
                channels,
                BitfinexMessage::Event {
                    event: Some(event),
                    chan_id: Some(id),
                    channel: Some(channel),
                    symbol: Some(symbol),
                    msg: None,
                },
            ),
            later,
            r,
        ),
    ensures
        r matches BitfinexAction::Trades(v) && v@.len() > 0
            && forall|i: int| 0 <= i < v@.len() ==> (#[trigger] v@[i]).symbol == symbol,
{
    reveal_strlit("ticker");
    reveal_strlit("trades");
    assert("trades"@[1] != "ticker"@[1]);
}

/// The trading symbols of Bitfinex's pair list: funding pairs (starting
/// with "f") are left out, and each other pair is written in upper case after
/// a "t".
pub open spec fn trading_symbols(pairs: Seq<String>) -> Seq<Seq<char>>
    decreases pairs.len(),
{
    if pairs.len() == 0 {
        Seq::empty()
    } else {
        let before = trading_symbols(pairs.drop_last());
        let p = pairs.last()@;
        if p.len() > 0 && p[0] == 'f' {
            before
        } else {
            before.push("t"@ + uppercase_of(p))
        }
    }
}

/// The symbols to subscribe to, from the pair list that Bitfinex publishes.
pub fn bitfinex_symbols(pairs: &Vec<String>) -> (r: Vec<String>)
    ensures
        r@.map_values(|s: String| s@) == trading_symbols(pairs@),
{
    let mut out: Vec<String> = Vec::new();
    let mut i: usize = 0;
    while i < pairs.len()
        invariant
            0 <= i <= pairs@.len(),
            out@.map_values(|s: String| s@) == trading_symbols(pairs@.take(i as int)),
        decreases pairs@.len() - i,
    {
        assert(pairs@.take(i + 1).drop_last() =~= pairs@.take(i as int));
        let p = pairs[i].as_str();
        let funding = p.unicode_len() > 0 && p.get_char(0) == 'f';
        if !funding {
            let mut sym = String::from_str("t");
            let upper = to_uppercase(p);
            sym.append(upper.as_str());
            let ghost before = out@;
            out.push(sym);
            assert(out@.map_values(|s: String| s@) =~= before.map_values(|s: String| s@).push(sym@));
        }
        i = i + 1;
    }
    assert(pairs@.take(pairs@.len() as int) =~= pairs@);
    out
}

/// The trade read from `f` on the channel of `symbol`.
fn read_trade(f: &BitfinexTradeFields, symbol: &String) -> (t: BitfinexTrade)
    ensures
        trade_from(t, *f, *symbol),
{
    let id: u64 = match f.id {
        Some(i) => i as u64,
        None => 0,
    };
    let ms: u64 = match f.millis {
        Some(m) => m as u64,
        None => 0,
    };
    BitfinexTrade {
        symbol: symbol.clone(),
        trade_id: id,
        time: crate::utils::parse_timestamp_millis(ms),
        price: copied(&f.price),
        amount: copied(&f.amount),
    }
}

/// The trades that a channel array carries, read on the channel of `symbol`.
fn read_trades(trades: &BitfinexTrades, symbol: &String) -> (r: Vec<BitfinexTrade>)
    ensures
        r@.len() == carried_trades(*trades).len(),
        forall|i: int| 0 <= i < r@.len() ==> trade_from(#[trigger] r@[i], carried_trades(*trades)[i], *symbol),
{
    let mut out: Vec<BitfinexTrade> = Vec::new();
    match trades {
        BitfinexTrades::Snapshot(items) => {
            let mut i: usize = 0;
            while i < items.len()
                invariant
                    0 <= i <= items@.len(),
                    out@.len() == present_trades(items@.take(i as int)).len(),
                    forall|j: int| 0 <= j < out@.len()
                        ==> trade_from(#[trigger] out@[j], present_trades(items@.take(i as int))[j], *symbol),
                decreases items@.len() - i,
            {
                assert(items@.take(i + 1).drop_last() =~= items@.take(i as int));
                match &items[i] {
                    Some(f) => {
                        let t = read_trade(f, symbol);
                        out.push(t);
                    },
                    None => {},
                }
                i = i + 1;
            }
            assert(items@.take(items@.len() as int) =~= items@);
        },
        BitfinexTrades::Update(Some(f)) => {
            out.push(read_trade(f, symbol));
        },
        _ => {},
    }
    out
}

/// Handles one Bitfinex message: files a new subscription, and says what to
/// store or report.
pub fn bitfinex_step(channels: &mut BitfinexChannels, msg: &BitfinexMessage) -> (r: BitfinexAction)
    ensures
        final(channels)@ == channels_after(old(channels)@, *msg),
        bitfinex_action_spec(old(channels)@, *msg, r),
{
    proof {
        reveal_strlit("subscribed");
        reveal_strlit("error");
        assert("subscribed"@.len() != "error"@.len());
    }
    match msg {
        BitfinexMessage::Channel { chan_id, heartbeat, ticker, trades } => {
            let info = channels.get(*chan_id);
            match info {
                None => BitfinexAction::Ignore,
                Some((channel, symbol)) => {
                    if *heartbeat {
                        BitfinexAction::Ignore
                    } else if str_eq(channel.as_str(), "ticker") {
                        match ticker {
                            Some(f) => BitfinexAction::Ticker(BitfinexTick {
                                symbol,
                                best_bid: copied(&f.bid),
                                best_ask: copied(&f.ask),
                                price: copied(&f.last_price),
                                volume: copied(&f.volume),
                                daily_change: copied(&f.daily_change),
                            }),
                            None => BitfinexAction::Ignore,
                        }
                    } else if str_eq(channel.as_str(), "trades") {
                        let v = read_trades(trades, &symbol);
                        if v.len() == 0 {
                            BitfinexAction::Ignore
                        } else {
                            BitfinexAction::Trades(v)
                        }
                    } else {
                        BitfinexAction::Ignore
                    }
                },
            }
        },
        BitfinexMessage::Event { event, chan_id, channel, symbol, msg } => {
            if is_word(event, "subscribed") {
                match (chan_id, channel, symbol) {
                    (Some(id), Some(c), Some(s)) => {
                        channels.map.insert(*id, (c.clone(), s.clone()));
                    },
                    _ => {},
                }
                BitfinexAction::Ignore
            } else if is_word(event, "error") {
                let mut m = String::from_str("Bitfinex error: ");
                match msg {
                    Some(x) => m.append(x.as_str()),
                    None => m.append("Unknown error"),
                }
                BitfinexAction::ExchangeError(m)
            } else {
                BitfinexAction::Ignore
            }
        },
        BitfinexMessage::Other => BitfinexAction::Ignore,
    }
}

/// A ticker on a subscribed ticker channel is stored for the channel's
/// symbol with the first element of the update as its best bid, the third as
/// its best ask, the seventh as its price, the eighth as its volume and the
/// fifth (the daily change, by which the side is judged) as given. A
/// heartbeat, or a message on a channel id never subscribed, stores nothing.
pub proof fn law_bitfinex_ticker_fields(channels: Map<i64, (String, String)>, msg: BitfinexMessage, r: BitfinexAction)
    requires
        msg is Channel,
        bitfinex_action_spec(channels, msg, r),
    ensures
        msg->heartbeat || !channels.contains_key(msg->Channel_chan_id) ==> r is Ignore,
        !msg->heartbeat && channels.contains_key(msg->Channel_chan_id) && channels[msg->Channel_chan_id].0@ == "ticker"@
            && msg->ticker is Some ==> r is Ticker && {
            let f = msg->ticker->0;
            let t = r->Ticker_0;
            &&& t.symbol == channels[msg->Channel_chan_id].1
            &&& t.best_bid == f.bid
            &&& t.best_ask == f.ask
            &&& t.price == f.last_price
            &&& t.volume == f.volume
            &&& t.daily_change == f.daily_change
        },
{
}

} // verus!
