//! The logger's write buffer and on-disk column format. Records wait in
//! buffers ordered by their key (market data by time, trades by id), a later
//! record replacing an earlier one with the same key; a flush takes them out
//! in key order and appends each field to its own little-endian column file.
use vstd::prelude::*;
use crate::keyed_buffer::KeyedBuffer;
use crate::data_types::{ExchangeId, TradeSide, side_code};
use crate::utils::{uuid_text_bytes, uuid_to_bytes};
use crate::text::{decimal, push_decimal};

verus! {

/// A ticker observation. Prices and volumes are single-precision floats,
/// held here as their IEEE-754 bit patterns.
#[derive(Debug, Clone, PartialEq, Eq)]
pub struct MarketRecord {
    pub exchange: ExchangeId,
    pub symbol: String,
    pub timestamp: u32,
    pub nanos: u32,
    pub price_bits: u32,
    pub volume_bits: u32,
    pub side: TradeSide,
    pub best_bid_bits: u32,
    pub best_ask_bits: u32,
}

/// A trade. Price and size are single-precision floats, held here as their
/// IEEE-754 bit patterns; order ids are UUID bytes.
#[derive(Debug, Clone, PartialEq, Eq)]
pub struct TradeRecord {
    pub exchange: ExchangeId,
    pub symbol: String,
    pub trade_id: u64,
    pub timestamp: u32,
    pub nanos: u32,
    pub price_bits: u32,
    pub size_bits: u32,
    pub side: TradeSide,
    pub maker_order_id: [u8; 16],
    pub taker_order_id: [u8; 16],
}

/// Records that a buffer orders and deduplicates by a 64-bit key.
pub trait Keyed {
    spec fn spec_key(&self) -> u64;

    fn key(&self) -> (k: u64)
        ensures
            k == self.spec_key(),
    ;
}

/// The buffer key of a ticker observation: its time, seconds then nanoseconds.
pub open spec fn market_key(r: MarketRecord) -> u64 {
    (r.timestamp * 0x1_0000_0000 + r.nanos) as u64
}

impl Keyed for MarketRecord {
    open spec fn spec_key(&self) -> u64 {
        market_key(*self)
    }

    fn key(&self) -> (k: u64) {
        self.timestamp as u64 * 0x1_0000_0000 + self.nanos as u64
    }
}

impl Keyed for TradeRecord {
    open spec fn spec_key(&self) -> u64 {
        self.trade_id
    }

    fn key(&self) -> (k: u64) {
        self.trade_id
    }
}

/// Market keys order observations by time: seconds first, then nanoseconds.
pub proof fn law_market_key_orders_by_time(a: MarketRecord, b: MarketRecord)
    ensures
        market_key(a) < market_key(b) <==> (a.timestamp < b.timestamp || (a.timestamp == b.timestamp && a.nanos < b.nanos)),
        market_key(a) == market_key(b) <==> (a.timestamp == b.timestamp && a.nanos == b.nanos),
{
    assert(market_key(a) == a.timestamp * 0x1_0000_0000 + a.nanos);
    assert(market_key(b) == b.timestamp * 0x1_0000_0000 + b.nanos);
    if a.timestamp < b.timestamp {
        assert(a.timestamp * 0x1_0000_0000 + 0x1_0000_0000 <= b.timestamp * 0x1_0000_0000) by (nonlinear_arith)
            requires a.timestamp < b.timestamp;
    } else if a.timestamp > b.timestamp {
        assert(b.timestamp * 0x1_0000_0000 + 0x1_0000_0000 <= a.timestamp * 0x1_0000_0000) by (nonlinear_arith)
            requires b.timestamp < a.timestamp;
    }
}

/// Keys strictly increase along `s`.
pub open spec fn strictly_sorted<R: Keyed>(s: Seq<R>) -> bool {
    forall|i: int, j: int| 0 <= i < j < s.len() ==> #[trigger] s[i].spec_key() < #[trigger] s[j].spec_key()
}

/// The records of `s` by key; a later record replaces an earlier one with the same key.
pub open spec fn by_key<R: Keyed>(s: Seq<R>) -> Map<u64, R>
    decreases s.len(),
{
    if s.len() == 0 {
        Map::empty()
    } else {
        by_key(s.drop_last()).insert(s.last().spec_key(), s.last())
    }
}

pub(crate) proof fn lemma_by_key<R: Keyed>(s: Seq<R>)
    requires
        strictly_sorted(s),
    ensures
        forall|i: int| 0 <= i < s.len() ==> #[trigger] by_key(s).contains_key(s[i].spec_key()) && by_key(s)[s[i].spec_key()] == s[i],
        forall|k: u64| #[trigger] by_key(s).contains_key(k) ==> exists|i: int| 0 <= i < s.len() && s[i].spec_key() == k,
    decreases s.len(),
{
    if s.len() > 0 {
        let t = s.drop_last();
        assert(strictly_sorted(t));
        lemma_by_key(t);
        let last = s.last();
        assert(by_key(s) == by_key(t).insert(last.spec_key(), last));
        assert forall|i: int| 0 <= i < s.len() implies #[trigger] by_key(s).contains_key(s[i].spec_key()) && by_key(s)[s[i].spec_key()] == s[i] by {
            if i < s.len() - 1 {
                assert(t[i] == s[i]);
                assert(by_key(t).contains_key(t[i].spec_key()) && by_key(t)[t[i].spec_key()] == t[i]);
                assert(s[i].spec_key() < s[s.len() - 1].spec_key());
            }
        }
        assert forall|k: u64| #[trigger] by_key(s).contains_key(k) implies exists|i: int| 0 <= i < s.len() && s[i].spec_key() == k by {
            if k != last.spec_key() {
                assert(by_key(t).contains_key(k));
                let i = choose|i: int| 0 <= i < t.len() && t[i].spec_key() == k;
                assert(s[i] == t[i]);
            } else {
                assert(s[s.len() - 1].spec_key() == k);
            }
        }
    }
}

/// Two strictly sorted sequences with the same records by key are equal.
proof fn lemma_sorted_same_map_eq<R: Keyed>(a: Seq<R>, b: Seq<R>, m: Map<u64, R>)
    requires
        strictly_sorted(a),
        strictly_sorted(b),
        by_key(a) == m,
        by_key(b) == m,
    ensures
        a == b,
    decreases a.len(),
{
    lemma_by_key(a);
    lemma_by_key(b);
    if a.len() == 0 {
        if b.len() > 0 {
            assert(by_key(b).contains_key(b[0].spec_key()));
        }
        assert(a =~= b);
    } else if b.len() == 0 {
        assert(by_key(a).contains_key(a[0].spec_key()));
    } else {
        let ka = a.last().spec_key();
        let kb = b.last().spec_key();
        assert(by_key(b).contains_key(ka));
        let ib = choose|i: int| 0 <= i < b.len() && b[i].spec_key() == ka;
        assert(by_key(a).contains_key(kb));
        let ia = choose|i: int| 0 <= i < a.len() && a[i].spec_key() == kb;
        assert(ka == kb) by {
            if ka < kb {
                assert(a[ia].spec_key() <= ka);
            } else if kb < ka {
                assert(b[ib].spec_key() <= kb);
            }
        }
        assert(a.last() == m[ka]);
        assert(b.last() == m[kb]);
        let ta = a.drop_last();
        let tb = b.drop_last();
        assert(strictly_sorted(ta));
        assert(strictly_sorted(tb));
        lemma_by_key(ta);
        lemma_by_key(tb);
        assert(by_key(ta) =~= by_key(tb)) by {
            assert forall|k: u64| #[trigger] by_key(ta).contains_key(k) <==> by_key(tb).contains_key(k) by {
                if by_key(ta).contains_key(k) {
                    let i = choose|i: int| 0 <= i < ta.len() && ta[i].spec_key() == k;
                    assert(a[i].spec_key() < ka);
                    assert(by_key(a).contains_key(k));
                    let j = choose|j: int| 0 <= j < b.len() && b[j].spec_key() == k;
                    assert(j != b.len() - 1);
                    assert(tb[j] == b[j]);
                }
                if by_key(tb).contains_key(k) {
                    let i = choose|i: int| 0 <= i < tb.len() && tb[i].spec_key() == k;
                    assert(b[i].spec_key() < kb);
                    assert(by_key(b).contains_key(k));
                    let j = choose|j: int| 0 <= j < a.len() && a[j].spec_key() == k;
                    assert(j != a.len() - 1);
                    assert(ta[j] == a[j]);
                }
            }
            assert forall|k: u64| #[trigger] by_key(ta).contains_key(k) implies by_key(ta)[k] == by_key(tb)[k] by {
                let i = choose|i: int| 0 <= i < ta.len() && ta[i].spec_key() == k;
                let j = choose|j: int| 0 <= j < tb.len() && tb[j].spec_key() == k;
                assert(a[i].spec_key() < ka);
                assert(b[j].spec_key() < kb);
                assert(by_key(a)[k] == a[i]);
                assert(by_key(b)[k] == b[j]);
            }
        }
        lemma_sorted_same_map_eq(ta, tb, by_key(ta));
        assert(a =~= ta.push(a.last()));
        assert(b =~= tb.push(b.last()));
    }
}

impl MarketRecord {
    /// An observation of `symbol` on `exchange` at the given time, with zero
    /// prices and volume and the buy side.
    pub fn new(exchange: ExchangeId, symbol: String, timestamp: u32, nanos: u32) -> (r: MarketRecord)
        ensures
            r == (MarketRecord {
                exchange,
                symbol,
                timestamp,
                nanos,
                price_bits: 0,
                volume_bits: 0,
                side: TradeSide::Buy,
                best_bid_bits: 0,
                best_ask_bits: 0,
            }),
    {
        MarketRecord { exchange, symbol, timestamp, nanos, price_bits: 0, volume_bits: 0, side: TradeSide::Buy, best_bid_bits: 0, best_ask_bits: 0 }
    }
}

impl MarketRecord {
    /// The same observation at another time.
    pub fn with_timestamp_parts(self, timestamp: u32, nanos: u32) -> (r: MarketRecord)
        ensures
            r == (MarketRecord { timestamp, nanos, ..self }),
    {
        let mut r = self;
        r.timestamp = timestamp;
        r.nanos = nanos;
        r
    }
}

impl TradeRecord {
    /// The same trade at another time.
    pub fn with_timestamp_parts(self, timestamp: u32, nanos: u32) -> (r: TradeRecord)
        ensures
            r == (TradeRecord { timestamp, nanos, ..self }),
    {
        let mut r = self;
        r.timestamp = timestamp;
        r.nanos = nanos;
        r
    }

    /// Trade `trade_id` of `symbol` on `exchange` at the given time, with
    /// zero price and size, the buy side and all-zero order ids.
    pub fn new(exchange: ExchangeId, symbol: String, trade_id: u64, timestamp: u32, nanos: u32) -> (r: TradeRecord)
        ensures
            r.exchange == exchange,
            r.symbol == symbol,
            r.trade_id == trade_id,
            r.timestamp == timestamp,
            r.nanos == nanos,
            r.price_bits == 0,
            r.size_bits == 0,
            r.side == TradeSide::Buy,
            r.maker_order_id@ == Seq::new(16, |i: int| 0u8),
            r.taker_order_id@ == Seq::new(16, |i: int| 0u8),
    {
        let r = TradeRecord {
            exchange,
            symbol,
            trade_id,
            timestamp,
            nanos,
            price_bits: 0,
            size_bits: 0,
            side: TradeSide::Buy,
            maker_order_id: [0u8; 16],
            taker_order_id: [0u8; 16],
        };
        assert(r.maker_order_id@ =~= Seq::new(16, |i: int| 0u8));
        assert(r.taker_order_id@ =~= Seq::new(16, |i: int| 0u8));
        r
    }

    /// Sets the maker order id from its textual UUID; text that is not a
    /// UUID leaves the id unchanged.
    pub fn set_maker_order_id(&mut self, id: &str)
        ensures
            uuid_text_bytes(id@) matches Some(b) ==> final(self).maker_order_id@ == b,
            uuid_text_bytes(id@) is None ==> final(self).maker_order_id == old(self).maker_order_id,
            final(self).taker_order_id == old(self).taker_order_id,
            final(self).trade_id == old(self).trade_id,
            final(self).symbol == old(self).symbol,
    {
        if let Ok(bytes) = uuid_to_bytes(id) {
            self.maker_order_id = bytes;
        }
    }

    /// Sets the taker order id from its textual UUID; text that is not a
    /// UUID leaves the id unchanged.
    pub fn set_taker_order_id(&mut self, id: &str)
        ensures
            uuid_text_bytes(id@) matches Some(b) ==> final(self).taker_order_id@ == b,
            uuid_text_bytes(id@) is None ==> final(self).taker_order_id == old(self).taker_order_id,
            final(self).maker_order_id == old(self).maker_order_id,
            final(self).trade_id == old(self).trade_id,
            final(self).symbol == old(self).symbol,
    {
        if let Ok(bytes) = uuid_to_bytes(id) {
            self.taker_order_id = bytes;
        }
    }
}

/// Buffers market data and trades until they are written.
pub struct DataBuffer {
    market_data: KeyedBuffer<MarketRecord>,
    trade_data: KeyedBuffer<TradeRecord>,
}

impl DataBuffer {
    /// The waiting market data, by key.
    pub closed spec fn market(&self) -> Map<u64, MarketRecord> {
        self.market_data.records()
    }

    /// The waiting trades, by trade id.
    pub closed spec fn trades(&self) -> Map<u64, TradeRecord> {
        self.trade_data.records()
    }

    /// Both buffers are in key order.
    pub closed spec fn wf(&self) -> bool {
        self.market_data.wf() && self.trade_data.wf()
    }

    /// Empty buffers.
    pub fn new() -> (r: DataBuffer)
        ensures
            r.wf(),
            r.market() == Map::<u64, MarketRecord>::empty(),
            r.trades() == Map::<u64, TradeRecord>::empty(),
    {
        let r = DataBuffer { market_data: KeyedBuffer::new(), trade_data: KeyedBuffer::new() };
        assert(r.market_data.records() =~= Map::<u64, MarketRecord>::empty());
        assert(r.trade_data.records() =~= Map::<u64, TradeRecord>::empty());
        r
    }

    /// Buffers an observation; one at the same second and nanosecond is replaced.
    pub fn add_market_data(&mut self, data: MarketRecord)
        requires
            old(self).wf(),
        ensures
            final(self).wf(),
            final(self).market() == old(self).market().insert(market_key(data), data),
            final(self).trades() == old(self).trades(),
    {
        self.market_data.add(data);
    }

    /// Buffers a trade; one with the same trade id is replaced.
    pub fn add_trade_data(&mut self, data: TradeRecord)
        requires
            old(self).wf(),
        ensures
            final(self).wf(),
            final(self).trades() == old(self).trades().insert(data.trade_id, data),
            final(self).market() == old(self).market(),
    {
        self.trade_data.add(data);
    }

    /// Takes the waiting market data out, in time order.
    pub fn take_market_data(&mut self) -> (r: Vec<MarketRecord>)
        requires
            old(self).wf(),
        ensures
            final(self).wf(),
            strictly_sorted(r@),
            by_key(r@) == old(self).market(),
            final(self).market() == Map::<u64, MarketRecord>::empty(),
            final(self).trades() == old(self).trades(),
    {
        let r = self.market_data.take();
        assert(self.market_data.records() =~= Map::<u64, MarketRecord>::empty());
        r
    }

    /// Takes the waiting trades out, in trade-id order.
    pub fn take_trade_data(&mut self) -> (r: Vec<TradeRecord>)
        requires
            old(self).wf(),
        ensures
            final(self).wf(),
            strictly_sorted(r@),
            by_key(r@) == old(self).trades(),
            final(self).trades() == Map::<u64, TradeRecord>::empty(),
            final(self).market() == old(self).market(),
    {
        let r = self.trade_data.take();
        assert(self.trade_data.records() =~= Map::<u64, TradeRecord>::empty());
        r
    }
}

// ---------------------------------------------------------------------------
// Column format

/// The little-endian bytes of a 32-bit value.
pub open spec fn le32(v: u32) -> Seq<u8> {
    seq![(v % 256) as u8, ((v / 0x100) % 256) as u8, ((v / 0x1_0000) % 256) as u8, ((v / 0x100_0000) % 256) as u8]
}

/// The little-endian bytes of a 64-bit value.
pub open spec fn le64(v: u64) -> Seq<u8> {
    le32((v % 0x1_0000_0000) as u32) + le32((v / 0x1_0000_0000) as u32)
}

/// Appends the little-endian bytes of a 32-bit value.
pub fn push_le32(out: &mut Vec<u8>, v: u32)
    ensures
        final(out)@ == old(out)@ + le32(v),
{
    out.push((v % 256) as u8);
    out.push(((v / 0x100) % 256) as u8);
    out.push(((v / 0x1_0000) % 256) as u8);
    out.push(((v / 0x100_0000) % 256) as u8);
    assert(final(out)@ =~= old(out)@ + le32(v));
}

/// Appends the little-endian bytes of a 64-bit value.
pub fn push_le64(out: &mut Vec<u8>, v: u64)
    ensures
        final(out)@ == old(out)@ + le64(v),
{
    push_le32(out, (v % 0x1_0000_0000) as u32);
    push_le32(out, (v / 0x1_0000_0000) as u32);
    assert(final(out)@ =~= old(out)@ + le64(v));
}

/// One column file's share of a record: the column's name and the bytes
/// appended to it.
#[derive(Debug, Clone, PartialEq, Eq)]
pub struct ColumnBytes {
    pub column: &'static str,
    pub bytes: Vec<u8>,
}

fn column(name: &'static str, bytes: Vec<u8>) -> (r: ColumnBytes)
    ensures
        r.column == name,
        r.bytes == bytes,
{
    ColumnBytes { column: name, bytes }
}

fn le32_bytes(v: u32) -> (r: Vec<u8>)
    ensures
        r@ == le32(v),
{
    let mut out: Vec<u8> = Vec::new();
    push_le32(&mut out, v);
    assert(out@ =~= le32(v));
    out
}

/// The columns of a ticker observation, in file order: time, nanos, price,
/// volume, side, best bid, best ask; each 4 little-endian bytes.
pub open spec fn market_columns_spec(r: MarketRecord) -> Seq<(Seq<char>, Seq<u8>)> {
    seq![
        ("time"@, le32(r.timestamp)),
        ("nanos"@, le32(r.nanos)),
        ("price"@, le32(r.price_bits)),
        ("volume"@, le32(r.volume_bits)),
        ("side"@, le32(side_code(r.side))),
        ("best_bid"@, le32(r.best_bid_bits)),
        ("best_ask"@, le32(r.best_ask_bits)),
    ]
}

/// The columns of a trade, in file order: id (8 bytes), time, nanos, price,
/// size, side (4 bytes each), maker and taker order ids (16 bytes each).
pub open spec fn trade_columns_spec(r: TradeRecord) -> Seq<(Seq<char>, Seq<u8>)> {
    seq![
        ("id"@, le64(r.trade_id)),
        ("time"@, le32(r.timestamp)),
        ("nanos"@, le32(r.nanos)),
        ("price"@, le32(r.price_bits)),
        ("size"@, le32(r.size_bits)),
        ("side"@, le32(side_code(r.side))),
        ("maker_order_id"@, r.maker_order_id@),
        ("taker_order_id"@, r.taker_order_id@),
    ]
}

/// The column names and bytes of a sequence of columns.
pub open spec fn columns_view(c: Seq<ColumnBytes>) -> Seq<(Seq<char>, Seq<u8>)> {
    c.map_values(|x: ColumnBytes| (x.column@, x.bytes@))
}

/// The bytes each market-data column file receives for an observation.
pub fn market_columns(r: &MarketRecord) -> (c: Vec<ColumnBytes>)
    ensures
        columns_view(c@) == market_columns_spec(*r),
{
    let mut c: Vec<ColumnBytes> = Vec::new();
    c.push(column("time", le32_bytes(r.timestamp)));
    c.push(column("nanos", le32_bytes(r.nanos)));
    c.push(column("price", le32_bytes(r.price_bits)));
    c.push(column("volume", le32_bytes(r.volume_bits)));
    c.push(column("side", le32_bytes(r.side.as_u32())));
    c.push(column("best_bid", le32_bytes(r.best_bid_bits)));
    c.push(column("best_ask", le32_bytes(r.best_ask_bits)));
    assert(columns_view(c@) =~= market_columns_spec(*r));
    c
}

fn array16_bytes(a: &[u8; 16]) -> (r: Vec<u8>)
    ensures
        r@ == a@,
{
    let mut out: Vec<u8> = Vec::new();
    let mut i: usize = 0;
    while i < 16
        invariant
            i <= 16,
            out@ == a@.take(i as int),
        decreases 16 - i,
    {
        out.push(a[i]);
        assert(a@.take(i + 1) =~= a@.take(i as int).push(a@[i as int]));
        i = i + 1;
    }
    assert(a@.take(16) =~= a@);
    out
}

/// The bytes each trade column file receives for a trade.
pub fn trade_columns(r: &TradeRecord) -> (c: Vec<ColumnBytes>)
    ensures
        columns_view(c@) == trade_columns_spec(*r),
{
    let mut id: Vec<u8> = Vec::new();
    push_le64(&mut id, r.trade_id);
    assert(id@ =~= le64(r.trade_id));
    let mut c: Vec<ColumnBytes> = Vec::new();
    c.push(column("id", id));
    c.push(column("time", le32_bytes(r.timestamp)));
    c.push(column("nanos", le32_bytes(r.nanos)));
    c.push(column("price", le32_bytes(r.price_bits)));
    c.push(column("size", le32_bytes(r.size_bits)));
    c.push(column("side", le32_bytes(r.side.as_u32())));
    c.push(column("maker_order_id", array16_bytes(&r.maker_order_id)));
    c.push(column("taker_order_id", array16_bytes(&r.taker_order_id)));
    assert(columns_view(c@) =~= trade_columns_spec(*r));
    c
}

/// A number printed at least two digits wide, zero-padded, as `{:02}` does;
/// a negative number keeps its sign.
pub open spec fn pad2(n: int) -> Seq<char> {
    if n < 0 {
        "-"@ + decimal((-n) as nat)
    } else if n < 10 {
        "0"@ + decimal(n as nat)
    } else {
        decimal(n as nat)
    }
}

/// The last two digits of a year, with the year's sign.
pub open spec fn year_suffix(year: int) -> int {
    if year < 0 {
        -((-year) % 100)
    } else {
        year % 100
    }
}

/// The name of a column file for a day: "<column>.<DD>.<MM>.<YY>.bin".
pub open spec fn column_file_name_spec(column: Seq<char>, day: u32, month: u32, year: i32) -> Seq<char> {
    column + "."@ + pad2(day as int) + "."@ + pad2(month as int) + "."@ + pad2(year_suffix(year as int)) + ".bin"@
}

fn push_pad2(out: &mut String, n: i64)
    requires
        n > i64::MIN,
    ensures
        final(out)@ == old(out)@ + pad2(n as int),
{
    if n < 0 {
        out.append("-");
        push_decimal(out, (-n) as u64);
    } else {
        if n < 10 {
            out.append("0");
        }
        push_decimal(out, n as u64);
    }
    proof {
        reveal_strlit("-");
        reveal_strlit("0");
    }
    assert(final(out)@ =~= old(out)@ + pad2(n as int));
}

/// The file that receives `column` on the given day.
pub fn column_file_name(column: &str, day: u32, month: u32, year: i32) -> (r: String)
    ensures
        r@ == column_file_name_spec(column@, day, month, year),
{
    let y = year as i64;
    let yy: i64 = if y < 0 { -((-y) % 100) } else { y % 100 };
    let mut r = String::from_str(column);
    r.append(".");
    push_pad2(&mut r, day as i64);
    r.append(".");
    push_pad2(&mut r, month as i64);
    r.append(".");
    push_pad2(&mut r, yy);
    r.append(".bin");
    assert(r@ =~= column_file_name_spec(column@, day, month, year));
    r
}

/// A flush writes each key's latest record exactly once, in key order: the
/// sequence taken out is the only strictly sorted one holding those records.
pub proof fn law_flush_order_is_determined<R: Keyed>(taken: Seq<R>, other: Seq<R>)
    requires
        strictly_sorted(taken),
        strictly_sorted(other),
        by_key(taken) == by_key(other),
    ensures
        taken == other,
{
    lemma_sorted_same_map_eq(taken, other, by_key(taken));
}

/// Each market-data column file receives the little-endian bytes of its own
/// field: "time" the timestamp, "nanos" the nanoseconds, "price" the price
/// bits, "volume" the volume bits, "side" the side code, "best_bid" the best
/// bid bits and "best_ask" the best ask bits; there are exactly these seven
/// columns, each once.
pub proof fn law_market_columns_carry_their_fields(r: MarketRecord)
    ensures
        market_columns_spec(r).len() == 7,
        forall|i: int, j: int| 0 <= i < j < 7 ==> market_columns_spec(r)[i].0 != market_columns_spec(r)[j].0,
        forall|i: int| 0 <= i < 7 ==> {
            let (n, b) = #[trigger] market_columns_spec(r)[i];
            &&& (n == "time"@ ==> b == le32(r.timestamp))
            &&& (n == "nanos"@ ==> b == le32(r.nanos))
            &&& (n == "price"@ ==> b == le32(r.price_bits))
            &&& (n == "volume"@ ==> b == le32(r.volume_bits))
            &&& (n == "side"@ ==> b == le32(side_code(r.side)))
            &&& (n == "best_bid"@ ==> b == le32(r.best_bid_bits))
            &&& (n == "best_ask"@ ==> b == le32(r.best_ask_bits))
            &&& (n == "time"@ || n == "nanos"@ || n == "price"@ || n == "volume"@ || n == "side"@
                || n == "best_bid"@ || n == "best_ask"@)
        },
{
    reveal_strlit("time");
    reveal_strlit("nanos");
    reveal_strlit("price");
    reveal_strlit("volume");
    reveal_strlit("side");
    reveal_strlit("best_bid");
    reveal_strlit("best_ask");
    let c = market_columns_spec(r);
    assert("time"@.len() == 4 && "side"@.len() == 4 && "nanos"@.len() == 5 && "price"@.len() == 5);
    assert("volume"@.len() == 6 && "best_bid"@.len() == 8 && "best_ask"@.len() == 8);
    assert("time"@[0] != "side"@[0]);
    assert("nanos"@[0] != "price"@[0]);
    assert("best_bid"@[5] != "best_ask"@[5]);
    assert forall|i: int, j: int| 0 <= i < j < 7 implies c[i].0 != c[j].0 by {
        if c[i].0 == c[j].0 {
            assert(c[i].0.len() == c[j].0.len());
        }
    }
}

/// Each trade column file receives its own field: "id" the 8 little-endian
/// bytes of the trade id, "time", "nanos", "price", "size" and "side" 4 bytes
/// of theirs, "maker_order_id" and "taker_order_id" the 16 bytes of the maker's
/// and the taker's order ids; there are exactly these eight columns, each once.
pub proof fn law_trade_columns_carry_their_fields(r: TradeRecord)
    ensures
        trade_columns_spec(r).len() == 8,
        forall|i: int, j: int| 0 <= i < j < 8 ==> trade_columns_spec(r)[i].0 != trade_columns_spec(r)[j].0,
        forall|i: int| 0 <= i < 8 ==> {
            let (n, b) = #[trigger] trade_columns_spec(r)[i];
            &&& (n == "id"@ ==> b == le64(r.trade_id))
            &&& (n == "time"@ ==> b == le32(r.timestamp))
            &&& (n == "nanos"@ ==> b == le32(r.nanos))
            &&& (n == "price"@ ==> b == le32(r.price_bits))
            &&& (n == "size"@ ==> b == le32(r.size_bits))
            &&& (n == "side"@ ==> b == le32(side_code(r.side)))
            &&& (n == "maker_order_id"@ ==> b == r.maker_order_id@)
            &&& (n == "taker_order_id"@ ==> b == r.taker_order_id@)
        },
{
    reveal_strlit("id");
    reveal_strlit("time");
    reveal_strlit("nanos");
    reveal_strlit("price");
    reveal_strlit("size");
    reveal_strlit("side");
    reveal_strlit("maker_order_id");
    reveal_strlit("taker_order_id");
    let c = trade_columns_spec(r);
    assert("id"@.len() == 2 && "time"@.len() == 4 && "size"@.len() == 4 && "side"@.len() == 4);
    assert("nanos"@.len() == 5 && "price"@.len() == 5);
    assert("maker_order_id"@.len() == 14 && "taker_order_id"@.len() == 14);
    assert("time"@[0] != "size"@[0] && "time"@[0] != "side"@[0] && "size"@[2] != "side"@[2]);
    assert("nanos"@[0] != "price"@[0]);
    assert("maker_order_id"@[0] != "taker_order_id"@[0]);
    assert forall|i: int, j: int| 0 <= i < j < 8 implies c[i].0 != c[j].0 by {
        if c[i].0 == c[j].0 {
            assert(c[i].0.len() == c[j].0.len());
        }
    }
}

} // verus!
