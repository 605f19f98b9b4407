//! What the logger does with each Kraken feed message. Kraken sends channel
//! data as arrays, [channel id, data, channel name, pair], and system events
//! as objects. Prices, volumes and trade times are kept as their decimal text.
use vstd::prelude::*;
use crate::data_types::{ExchangeId, TradeSide};
use crate::feed_messages::{copied, is_word, MarketUpdate};
use crate::symbol_mapper::{index_key, SymbolMapper};
use crate::text::str_eq;

verus! {

/// The ticker object of a Kraken ticker message: the first element of `c`
/// (last price) and its second (its volume), the first of `a` (best ask) and of
/// `b` (best bid), and `o` (the opening price), each where it is text.
pub struct KrakenTickerFields {
    pub last_price: Option<String>,
    pub last_volume: Option<String>,
    pub best_ask: Option<String>,
    pub best_bid: Option<String>,
    pub open: Option<String>,
}

/// One trade array, [price, volume, time, side, ..]: its length, and its first
/// four elements where they are text.
pub struct KrakenTradeFields {
    pub len: usize,
    pub price: Option<String>,
    pub volume: Option<String>,
    pub time: Option<String>,
    pub side: Option<String>,
}

/// The data element of a channel message.
pub enum KrakenData {
    /// An object, read as ticker fields.
    Object(KrakenTickerFields),
    /// An array: each item is `Some` where it is itself an array.
    Array(Vec<Option<KrakenTradeFields>>),
    /// Anything else.
    Other,
}

/// A Kraken feed message.
pub enum KrakenMessage {
    /// An array of at least four elements. The channel name and the pair are
    /// the texts of the third and fourth elements, empty where those are not
    /// text.
    Channel { data: KrakenData, channel_name: String, pair: String },
    /// An object: its `event`, `status` and `errorMessage` where they are text.
    Event { event: Option<String>, status: Option<String>, error_message: Option<String> },
    /// Anything else, a shorter array included.
    Other,
}

/// A trade to store; its time is the decimal text of seconds since the epoch.
pub struct KrakenTrade {
    pub symbol: String,
    pub price: Option<String>,
    pub volume: Option<String>,
    pub time: Option<String>,
    pub side: TradeSide,
}

/// What to do with a Kraken message.
pub enum KrakenAction {
    /// Store a ticker update, stamped with the time of arrival.
    Market(MarketUpdate),
    /// Store these trades, in order; the text is the error that stopped the
    /// reading before the end, if one did.
    Trades(Vec<KrakenTrade>, Option<String>),
    Heartbeat,
    /// The exchange reported an error.
    ExchangeError(String),
    /// The message could not be read; the text says why.
    Malformed(String),
    Ignore,
}

/// Kraken's name for an asset in the common form: XBT is BTC.
pub open spec fn common_asset(a: Seq<char>) -> Seq<char> {
    if a == "XBT"@ { "BTC"@ } else { a }
}

/// `k` is the position of the first "/" in `p`.
pub open spec fn first_slash(p: Seq<char>, k: int) -> bool {
    &&& 0 <= k < p.len()
    &&& p[k] == '/'
    &&& forall|j: int| 0 <= j < k ==> p[j] != '/'
}

/// The normalized form of a Kraken pair: "XBT/USD" is "BTC-USD"; a name
/// without "/" is kept as it is.
pub open spec fn kraken_pair_name(p: Seq<char>) -> Seq<char> {
    if exists|k: int| #[trigger] first_slash(p, k) {
        let k = choose|k: int| #[trigger] first_slash(p, k);
        common_asset(p.take(k)) + "-"@ + common_asset(p.skip(k + 1))
    } else {
        p
    }
}

/// The normalized form of a Kraken pair.
pub fn normalize_symbol_kraken(pair: &str) -> (r: String)
    ensures
        r@ == kraken_pair_name(pair@),
{
    let n = pair.unicode_len();
    let mut k: usize = 0;
    while k < n
        invariant
            n == pair@.len(),
            0 <= k <= n,
            forall|j: int| 0 <= j < k ==> pair@[j] != '/',
        ensures
            0 <= k <= n,
            forall|j: int| 0 <= j < k ==> pair@[j] != '/',
            k == n || pair@[k as int] == '/',
        decreases n - k,
    {
        if pair.get_char(k) == '/' {
            break;
        }
        k = k + 1;
    }
    if k == n {
        assert(!exists|k: int| #[trigger] first_slash(pair@, k));
        return String::from_str(pair);
    }
    assert(first_slash(pair@, k as int));
    let ghost c = choose|c: int| #[trigger] first_slash(pair@, c);
    assert(c == k) by {
        if c < k {
            assert(pair@[c] != '/');
        } else if c > k {
            assert(pair@[k as int] != '/');
        }
    }
    let base = pair.substring_char(0, k);
    let quote = pair.substring_char(k + 1, n);
    assert(base@ =~= pair@.take(k as int));
    assert(quote@ =~= pair@.skip(k + 1));
    let mut out = if str_eq(base, "XBT") { String::from_str("BTC") } else { String::from_str(base) };
    out.append("-");
    if str_eq(quote, "XBT") {
        out.append("BTC");
    } else {
        out.append(quote);
    }
    out
}

/// The normalized form of a Kraken pair: the mapped one, else the common form.
pub open spec fn kraken_symbol(index: Map<Seq<char>, String>, pair: Seq<char>) -> Seq<char> {
    if index.contains_key(index_key(ExchangeId::Kraken, pair)) {
        index[index_key(ExchangeId::Kraken, pair)]@
    } else {
        kraken_pair_name(pair)
    }
}

/// The side of a Kraken trade: a sell only when it says "s".
pub open spec fn kraken_side(side: Option<String>) -> TradeSide {
    if side matches Some(s) && s@ == "s"@ { TradeSide::Sell } else { TradeSide::Buy }
}

/// The trades read from the items, in order, and whether an item that is not
/// an array stopped the reading. Arrays of fewer than four elements are
/// passed over.
pub open spec fn read_items(items: Seq<Option<KrakenTradeFields>>) -> (Seq<KrakenTradeFields>, bool)
    decreases items.len(),
{
    if items.len() == 0 {
        (Seq::empty(), false)
    } else {
        let (before, stopped) = read_items(items.drop_last());
        if stopped {
            (before, true)
        } else {
            match items.last() {
                None => (before, true),
                Some(f) => if f.len >= 4 { (before.push(f), false) } else { (before, false) },
            }
        }
    }
}

/// `t` is the trade read from `f` on `symbol`.
pub open spec fn kraken_trade_from(t: KrakenTrade, f: KrakenTradeFields, symbol: Seq<char>) -> bool {
    &&& t.symbol@ == symbol
    &&& t.price == f.price
    &&& t.volume == f.volume
    &&& t.time == f.time
    &&& t.side == kraken_side(f.side)
}

/// `r` is what the logger does with the Kraken message `msg`, given the
/// mapper's index.
pub open spec fn kraken_action_spec(msg: KrakenMessage, index: Map<Seq<char>, String>, r: KrakenAction) -> bool {
    match msg {
        KrakenMessage::Channel { data, channel_name, pair } => {
            if channel_name@ == "ticker"@ {
                match data {
                    KrakenData::Object(f) => r matches KrakenAction::Market(q) && {
                        &&& q.exchange == ExchangeId::Kraken
                        &&& q.symbol@ == kraken_symbol(index, pair@)
                        &&& q.time is None
                        &&& q.price == f.last_price
                        &&& q.volume == f.last_volume
                        &&& q.best_bid == f.best_bid
                        &&& q.best_ask == f.best_ask
                        &&& q.open == f.open
                    },
                    _ => r matches KrakenAction::Malformed(m) && m@ == "Ticker data is not an object"@,
                }
            } else if channel_name@ == "trade"@ {
                match data {
                    KrakenData::Array(items) => {
                        let (fs, stopped) = read_items(items@);
                        r matches KrakenAction::Trades(v, err) && {
                            &&& v@.len() == fs.len()
                            &&& forall|i: int| 0 <= i < fs.len()
                                ==> kraken_trade_from(#[trigger] v@[i], fs[i], kraken_symbol(index, pair@))
                            &&& (err is Some) == stopped
                            &&& (err matches Some(e) ==> e@ == "Trade data is not an array"@)
                        }
                    },
                    _ => r is Ignore,
                }
            } else {
                r is Ignore
            }
        },
        KrakenMessage::Event { event, status, error_message } => {
            let reported = match error_message {
                Some(e) => e@,
                None => "Unknown error"@,
            };
            if event matches Some(e) && e@ == "heartbeat"@ {
                r is Heartbeat
            } else if event matches Some(e) && e@ == "subscriptionStatus"@ {
                if status matches Some(s) && s@ == "error"@ {
                    r matches KrakenAction::ExchangeError(m) && m@ == reported
                } else {
                    r is Ignore
                }
            } else if event matches Some(e) && e@ == "error"@ {
                r matches KrakenAction::ExchangeError(m) && m@ == reported
            } else {
                r is Ignore
            }
        },
        KrakenMessage::Other => r is Ignore,
    }
}

/// Once an item has stopped the reading, later items change nothing.
proof fn lemma_stopped_stays(items: Seq<Option<KrakenTradeFields>>, k: int)
    requires
        0 <= k <= items.len(),
        read_items(items.take(k)).1,
    ensures
        read_items(items) == read_items(items.take(k)),
    decreases items.len() - k,
{
    if k < items.len() {
        assert(items.take(k + 1).drop_last() =~= items.take(k));
        lemma_stopped_stays(items, k + 1);
    } else {
        assert(items.take(k) =~= items);
    }
}

/// The normalized form of a Kraken pair.
fn kraken_normalized(mapper: &SymbolMapper, pair: &str) -> (r: String)
    ensures
        r@ == kraken_symbol(mapper.index(), pair@),
{
    match mapper.normalize(ExchangeId::Kraken, pair) {
        Some(n) => n,
        None => normalize_symbol_kraken(pair),
    }
}

/// The trades of a trade message, read on `symbol`.
fn read_trades(items: &Vec<Option<KrakenTradeFields>>, symbol: &String) -> (r: (Vec<KrakenTrade>, Option<String>))
    ensures
        r.0@.len() == read_items(items@).0.len(),
        forall|i: int| 0 <= i < r.0@.len() ==> kraken_trade_from(#[trigger] r.0@[i], read_items(items@).0[i], symbol@),
        (r.1 is Some) == read_items(items@).1,
        r.1 matches Some(e) ==> e@ == "Trade data is not an array"@,
{
    let mut out: Vec<KrakenTrade> = Vec::new();
    let mut i: usize = 0;
    while i < items.len()
        invariant
            0 <= i <= items@.len(),
            !read_items(items@.take(i as int)).1,
            out@.len() == read_items(items@.take(i as int)).0.len(),
            forall|j: int| 0 <= j < out@.len()
                ==> kraken_trade_from(#[trigger] out@[j], read_items(items@.take(i as int)).0[j], symbol@),
        decreases items@.len() - i,
    {
        assert(items@.take(i + 1).drop_last() =~= items@.take(i as int));
        match &items[i] {
            None => {
                proof {
                    lemma_stopped_stays(items@, i + 1);
                }
                return (out, Some(String::from_str("Trade data is not an array")));
            },
            Some(f) => {
                if f.len >= 4 {
                    let side = if is_word(&f.side, "s") { TradeSide::Sell } else { TradeSide::Buy };
                    out.push(KrakenTrade {
                        symbol: symbol.clone(),
                        price: copied(&f.price),
                        volume: copied(&f.volume),
                        time: copied(&f.time),
                        side,
                    });
                }
            },
        }
        i = i + 1;
    }
    assert(items@.take(items@.len() as int) =~= items@);
    (out, None)
}

/// What to do with a Kraken message.
pub fn kraken_action(msg: &KrakenMessage, mapper: &SymbolMapper) -> (r: KrakenAction)
    ensures
        kraken_action_spec(*msg, mapper.index(), r),
{
    proof {
        reveal_strlit("heartbeat");
        reveal_strlit("subscriptionStatus");
        reveal_strlit("error");
        reveal_strlit("ticker");
        reveal_strlit("trade");
        assert("heartbeat"@.len() != "subscriptionStatus"@.len());
        assert("heartbeat"@.len() != "error"@.len());
        assert("subscriptionStatus"@.len() != "error"@.len());
        assert("ticker"@[1] != "trade"@[1]);
    }
    match msg {
        KrakenMessage::Channel { data, channel_name, pair } => {
            if str_eq(channel_name.as_str(), "ticker") {
                match data {
                    KrakenData::Object(f) => KrakenAction::Market(MarketUpdate {
                        exchange: ExchangeId::Kraken,
                        symbol: kraken_normalized(mapper, pair.as_str()),
                        time: None,
                        price: copied(&f.last_price),
                        volume: copied(&f.last_volume),
                        best_bid: copied(&f.best_bid),
                        best_ask: copied(&f.best_ask),
                        open: copied(&f.open),
                    }),
                    _ => KrakenAction::Malformed(String::from_str("Ticker data is not an object")),
                }
            } else if str_eq(channel_name.as_str(), "trade") {
                match data {
                    KrakenData::Array(items) => {
                        let symbol = kraken_normalized(mapper, pair.as_str());
                        let (trades, err) = read_trades(items, &symbol);
                        KrakenAction::Trades(trades, err)
                    },
                    _ => KrakenAction::Ignore,
                }
            } else {
                KrakenAction::Ignore
            }
        },
        KrakenMessage::Event { event, status, error_message } => {
            let reported = match error_message {
                Some(e) => e.clone(),
                None => String::from_str("Unknown error"),
            };
            if is_word(event, "heartbeat") {
                KrakenAction::Heartbeat
            } else if is_word(event, "subscriptionStatus") {
                if is_word(status, "error") {
                    KrakenAction::ExchangeError(reported)
                } else {
                    KrakenAction::Ignore
                }
            } else if is_word(event, "error") {
                KrakenAction::ExchangeError(reported)
            } else {
                KrakenAction::Ignore
            }
        },
        KrakenMessage::Other => KrakenAction::Ignore,
    }
}

/// A Kraken ticker object is stored as a market update for the pair whose
/// price and volume are the first two elements of `c`, whose opening price
/// (by which the side is judged) is `o`, and whose best bid and ask are the
/// first elements of `b` and `a`. Every trade read from a trade message is a
/// sell exactly when its side field says "s", and carries its price, volume
/// and time as given.
pub proof fn law_kraken_fields(msg: KrakenMessage, index: Map<Seq<char>, String>, r: KrakenAction)
    requires
        msg is Channel,
        kraken_action_spec(msg, index, r),
    ensures
        msg->channel_name@ == "ticker"@ && msg->data is Object ==> r is Market && {
            let f = msg->data->Object_0;
            let q = r->Market_0;
            &&& q.exchange == ExchangeId::Kraken
            &&& q.price == f.last_price
            &&& q.volume == f.last_volume
            &&& q.open == f.open
            &&& q.best_bid == f.best_bid
            &&& q.best_ask == f.best_ask
        },
        msg->channel_name@ == "trade"@ && msg->data is Array ==> r is Trades && {
            let fs = read_items(msg->data->Array_0@).0;
            let v = r->Trades_0;
            &&& v@.len() == fs.len()
            &&& forall|i: int| 0 <= i < fs.len() ==> {
                &&& ((#[trigger] v@[i]).side == TradeSide::Sell <==> (fs[i].side matches Some(s) && s@ == "s"@))
                &&& v@[i].price == fs[i].price
                &&& v@[i].volume == fs[i].volume
                &&& v@[i].time == fs[i].time
            }
        },
{
    reveal_strlit("ticker");
    reveal_strlit("trade");
    assert("ticker"@[1] != "trade"@[1]);
}

} // verus!
