//! Symbol mapping between exchanges: each normalized symbol (such as
//! "BTC-USD") knows its name on every exchange, every exchange symbol knows
//! its normalized form, and quote assets can be declared equivalent (USD and
//! USDT, say).
use vstd::prelude::*;
use dashmap::DashMap;
use crate::data_types::{AssetClass, ExchangeId, QuoteType, all_ascii, ascii_lowercase, exchange_name, lowercase_of, to_lowercase};
use crate::text::str_eq;

verus! {

/// Quote assets that count as one, with the one that stands for them.
#[derive(Debug, Clone, PartialEq, Eq)]
pub struct AssetGroup {
    pub group: String,
    pub members: Vec<String>,
    pub primary: String,
}

/// The groups of equivalent quote assets.
#[derive(Debug, Clone, PartialEq, Eq)]
pub struct EquivalenceRules {
    pub quote_assets: Vec<AssetGroup>,
}

/// How symbol mappings are obtained.
#[derive(Debug, Clone, PartialEq, Eq)]
pub struct SymbolMappingsConfig {
    /// A YAML file of mappings to load at start, if any.
    pub mappings_file: Option<String>,
    pub auto_discover: bool,
    pub equivalence_rules: EquivalenceRules,
}

/// A normalized symbol and its name on each exchange (each exchange once).
#[derive(Debug, Clone, PartialEq, Eq)]
pub struct ExchangeSymbolMap {
    pub normalized: String,
    pub exchange_symbols: Vec<(ExchangeId, String)>,
    pub asset_class: AssetClass,
    pub base_asset: String,
    pub quote_asset: String,
    pub quote_type: QuoteType,
}

/// An exchange symbol with its normalized form.
#[derive(Debug, Clone, PartialEq, Eq)]
pub struct SymbolInfo {
    pub exchange: ExchangeId,
    pub symbol: String,
    pub normalized: String,
    pub active: bool,
}

/// A symbol as an exchange lists it, with its normalized form and assets.
#[derive(Debug, Clone, PartialEq, Eq)]
pub struct Symbol {
    pub exchange: ExchangeId,
    pub exchange_symbol: String,
    pub normalized: String,
    pub base_asset: String,
    pub quote_asset: String,
    pub asset_class: AssetClass,
    pub active: bool,
}

/// One entry of a mappings file: a normalized symbol, its assets, the kind of
/// its quote, and its name on each exchange (by exchange name).
#[derive(Debug, Clone, PartialEq, Eq)]
pub struct SymbolMappingEntry {
    pub normalized: String,
    pub base: String,
    pub quote: String,
    pub quote_type: String,
    pub exchanges: Vec<(String, String)>,
}

/// The contents of a mappings file.
#[derive(Debug, Clone, PartialEq, Eq)]
pub struct SymbolMappingFile {
    pub symbol_mappings: Vec<SymbolMappingEntry>,
}

// ---------------------------------------------------------------------------
// The concurrent maps

/// The symbol maps, by normalized symbol.
pub uninterp spec fn mapping_entries(m: DashMap<String, ExchangeSymbolMap>) -> Map<Seq<char>, ExchangeSymbolMap>;

/// The normalized symbols, by "<exchange>:<exchange symbol>".
pub uninterp spec fn index_entries(m: DashMap<String, String>) -> Map<Seq<char>, String>;

/// No symbol maps.
pub open spec fn no_mappings() -> Map<Seq<char>, ExchangeSymbolMap> {
    Map::empty()
}

/// No index entries.
pub open spec fn no_index() -> Map<Seq<char>, String> {
    Map::empty()
}

/// An empty map of symbol maps (`DashMap::new`).
#[verifier::external_body]
fn new_mapping_map() -> (r: DashMap<String, ExchangeSymbolMap>)
    ensures
        mapping_entries(r) == no_mappings(),
{
    DashMap::new()
}

/// An empty index (`DashMap::new`).
#[verifier::external_body]
fn new_index_map() -> (r: DashMap<String, String>)
    ensures
        index_entries(r) == no_index(),
{
    DashMap::new()
}

/// The symbol map under `key` (`DashMap::get`, cloned out).
#[verifier::external_body]
fn mapping_get(m: &DashMap<String, ExchangeSymbolMap>, key: &str) -> (r: Option<ExchangeSymbolMap>)
    ensures
        r is Some <==> mapping_entries(*m).contains_key(key@),
        r matches Some(v) ==> v == mapping_entries(*m)[key@],
{
    m.get(key).map(|v| v.clone())
}

/// Sets the symbol map under `key` (`DashMap::insert`).
#[verifier::external_body]
fn mapping_insert(m: &mut DashMap<String, ExchangeSymbolMap>, key: String, value: ExchangeSymbolMap)
    ensures
        mapping_entries(*final(m)) == mapping_entries(*old(m)).insert(key@, value),
{
    m.insert(key, value);
}

/// Every symbol map, each once, in the map's own order (`DashMap::iter`,
/// cloned out). The order depends on hashing and is not stated.
#[verifier::external_body]
fn mapping_list(m: &DashMap<String, ExchangeSymbolMap>) -> (r: Vec<(String, ExchangeSymbolMap)>)
    ensures
        forall|i: int| 0 <= i < r@.len() ==> mapping_entries(*m).contains_key(#[trigger] r@[i].0@)
            && mapping_entries(*m)[r@[i].0@] == r@[i].1,
        forall|k: Seq<char>| mapping_entries(*m).contains_key(k) ==> exists|i: int| 0 <= i < r@.len() && #[trigger] r@[i].0@ == k,
        forall|i: int, j: int| 0 <= i < j < r@.len() ==> #[trigger] r@[i].0@ != #[trigger] r@[j].0@,
{
    m.iter().map(|e| (e.key().clone(), e.value().clone())).collect()
}

/// The normalized symbol under `key` (`DashMap::get`, cloned out).
#[verifier::external_body]
fn index_get(m: &DashMap<String, String>, key: &str) -> (r: Option<String>)
    ensures
        r is Some <==> index_entries(*m).contains_key(key@),
        r matches Some(v) ==> v == index_entries(*m)[key@],
{
    m.get(key).map(|v| v.clone())
}

/// Sets the normalized symbol under `key` (`DashMap::insert`).
#[verifier::external_body]
fn index_insert(m: &mut DashMap<String, String>, key: String, value: String)
    ensures
        index_entries(*final(m)) == index_entries(*old(m)).insert(key@, value),
{
    m.insert(key, value);
}

// ---------------------------------------------------------------------------
// Exchange symbol lists

/// The exchange symbols of a list, by exchange.
pub open spec fn symbols_by_exchange(v: Seq<(ExchangeId, String)>) -> Map<ExchangeId, String> {
    Map::new(
        |e: ExchangeId| exists|i: int| 0 <= i < v.len() && v[i].0 == e,
        |e: ExchangeId| v[choose|i: int| 0 <= i < v.len() && v[i].0 == e].1,
    )
}

/// Each exchange appears at most once.
pub open spec fn exchanges_distinct(v: Seq<(ExchangeId, String)>) -> bool {
    forall|i: int, j: int| 0 <= i < j < v.len() ==> #[trigger] v[i].0 != #[trigger] v[j].0
}

/// The list with the symbol of `exchange` set: in place where the exchange
/// is listed, else at the end.
pub open spec fn upserted(v: Seq<(ExchangeId, String)>, exchange: ExchangeId, symbol: String) -> Seq<(ExchangeId, String)> {
    if exists|i: int| 0 <= i < v.len() && v[i].0 == exchange {
        v.update(choose|i: int| 0 <= i < v.len() && v[i].0 == exchange, (exchange, symbol))
    } else {
        v.push((exchange, symbol))
    }
}

/// Sets the symbol of `exchange` in the list, replacing an earlier one.
fn upsert_symbol(v: &mut Vec<(ExchangeId, String)>, exchange: ExchangeId, symbol: String)
    requires
        exchanges_distinct(old(v)@),
    ensures
        final(v)@ == upserted(old(v)@, exchange, symbol),
        exchanges_distinct(final(v)@),
        symbols_by_exchange(final(v)@) == symbols_by_exchange(old(v)@).insert(exchange, symbol),
        forall|i: int| 0 <= i < old(v)@.len() && old(v)@[i].0 != exchange ==> #[trigger] final(v)@.contains(old(v)@[i]),
        forall|i: int| 0 <= i < final(v)@.len() ==> #[trigger] final(v)@[i] == (exchange, symbol) || old(v)@.contains(final(v)@[i]),
{
    let n = v.len();
    let mut i: usize = 0;
    while i < n
        invariant
            n == v@.len(),
            v@ == old(v)@,
            exchanges_distinct(v@),
            i <= n,
            forall|j: int| 0 <= j < i ==> #[trigger] v@[j].0 != exchange,
        decreases n - i,
    {
        if v[i].0 == exchange {
            let ghost s = v@;
            v.set(i, (exchange, symbol));
            let ghost t = v@;
            assert(t == s.update(i as int, (exchange, symbol)));
            proof {
                let k = choose|k: int| 0 <= k < s.len() && s[k].0 == exchange;
                assert(k == i) by {
                    if k != i {
                        if k < i { assert(s[k].0 != exchange); } else { assert(s[i as int].0 != s[k].0); }
                    }
                }
            }
            assert(exchanges_distinct(t)) by {
                assert forall|a: int, b: int| 0 <= a < b < t.len() implies #[trigger] t[a].0 != #[trigger] t[b].0 by {
                    assert(s[a].0 != s[b].0);
                }
            }
            assert(symbols_by_exchange(t) =~= symbols_by_exchange(s).insert(exchange, symbol)) by {
                assert forall|e: ExchangeId| #[trigger] symbols_by_exchange(t).contains_key(e) <==> symbols_by_exchange(s).insert(exchange, symbol).contains_key(e) by {
                    if symbols_by_exchange(s).contains_key(e) {
                        let j = choose|j: int| 0 <= j < s.len() && s[j].0 == e;
                        assert(t[j].0 == e);
                    }
                    if e == exchange {
                        assert(t[i as int].0 == e);
                    }
                    if symbols_by_exchange(t).contains_key(e) {
                        let j = choose|j: int| 0 <= j < t.len() && t[j].0 == e;
                        if j != i {
                            assert(s[j].0 == e);
                        }
                    }
                }
                assert forall|e: ExchangeId| #[trigger] symbols_by_exchange(t).contains_key(e) implies symbols_by_exchange(t)[e] == symbols_by_exchange(s).insert(exchange, symbol)[e] by {
                    let j = choose|j: int| 0 <= j < t.len() && t[j].0 == e;
                    if e == exchange {
                        assert(j == i) by {
                            if j != i {
                                if j < i { assert(s[j].0 != exchange); } else { assert(s[i as int].0 != s[j].0); }
                            }
                        }
                    } else {
                        assert(s[j].0 == e);
                        let k = choose|k: int| 0 <= k < s.len() && s[k].0 == e;
                        assert(k == j) by {
                            if k != j {
                                if k < j { assert(s[k].0 != s[j].0); } else { assert(s[j].0 != s[k].0); }
                            }
                        }
                    }
                }
            }
            assert forall|a: int| 0 <= a < s.len() && s[a].0 != exchange implies #[trigger] t.contains(s[a]) by {
                assert(t[a] == s[a]);
            }
            assert forall|a: int| 0 <= a < t.len() implies #[trigger] t[a] == (exchange, symbol) || s.contains(t[a]) by {
                if a != i {
                    assert(t[a] == s[a]);
                }
            }
            return;
        }
        i = i + 1;
    }
    let ghost s = v@;
    v.push((exchange, symbol));
    let ghost t = v@;
    assert(t == s.push((exchange, symbol)));
    assert(exchanges_distinct(t)) by {
        assert forall|a: int, b: int| 0 <= a < b < t.len() implies #[trigger] t[a].0 != #[trigger] t[b].0 by {
            if b < s.len() {
                assert(s[a].0 != s[b].0);
            }
        }
    }
    assert(symbols_by_exchange(t) =~= symbols_by_exchange(s).insert(exchange, symbol)) by {
        assert forall|e: ExchangeId| #[trigger] symbols_by_exchange(t).contains_key(e) <==> symbols_by_exchange(s).insert(exchange, symbol).contains_key(e) by {
            if symbols_by_exchange(s).contains_key(e) {
                let j = choose|j: int| 0 <= j < s.len() && s[j].0 == e;
                assert(t[j].0 == e);
            }
            if e == exchange {
                assert(t[s.len() as int].0 == e);
            }
            if symbols_by_exchange(t).contains_key(e) {
                let j = choose|j: int| 0 <= j < t.len() && t[j].0 == e;
                if j < s.len() {
                    assert(s[j].0 == e);
                }
            }
        }
        assert forall|e: ExchangeId| #[trigger] symbols_by_exchange(t).contains_key(e) implies symbols_by_exchange(t)[e] == symbols_by_exchange(s).insert(exchange, symbol)[e] by {
            let j = choose|j: int| 0 <= j < t.len() && t[j].0 == e;
            if e == exchange {
                assert(j == s.len()) by {
                    if j < s.len() {
                        assert(s[j].0 != exchange);
                    }
                }
            } else {
                assert(j < s.len());
                assert(s[j].0 == e);
                let k = choose|k: int| 0 <= k < s.len() && s[k].0 == e;
                assert(k == j) by {
                    if k != j {
                        if k < j { assert(s[k].0 != s[j].0); } else { assert(s[j].0 != s[k].0); }
                    }
                }
            }
        }
    }
    assert forall|a: int| 0 <= a < s.len() && s[a].0 != exchange implies #[trigger] t.contains(s[a]) by {
        assert(t[a] == s[a]);
    }
    assert forall|a: int| 0 <= a < t.len() implies #[trigger] t[a] == (exchange, symbol) || s.contains(t[a]) by {
        if a < s.len() {
            assert(t[a] == s[a]);
        }
    }
}

/// The symbol of `exchange` in the list, if it has one.
fn symbol_of(v: &Vec<(ExchangeId, String)>, exchange: ExchangeId) -> (r: Option<String>)
    requires
        exchanges_distinct(v@),
    ensures
        r is Some <==> symbols_by_exchange(v@).contains_key(exchange),
        r matches Some(s) ==> s == symbols_by_exchange(v@)[exchange],
{
    let mut i: usize = 0;
    while i < v.len()
        invariant
            i <= v@.len(),
            exchanges_distinct(v@),
            forall|j: int| 0 <= j < i ==> #[trigger] v@[j].0 != exchange,
        decreases v@.len() - i,
    {
        if v[i].0 == exchange {
            proof {
                let k = choose|k: int| 0 <= k < v@.len() && v@[k].0 == exchange;
                assert(k == i) by {
                    if k != i {
                        if k < i { assert(v@[k].0 != exchange); } else { assert(v@[i as int].0 != v@[k].0); }
                    }
                }
            }
            return Some(v[i].1.clone());
        }
        i = i + 1;
    }
    None
}

// ---------------------------------------------------------------------------
// Parsing and classification

/// The exchange a (case-insensitive) name in a mappings file denotes; only
/// Coinbase, Binance, Kraken and Bybit are recognised.
pub open spec fn exchange_of_name(lower: Seq<char>) -> Option<ExchangeId> {
    if lower == "coinbase"@ {
        Some(ExchangeId::Coinbase)
    } else if lower == "binance"@ {
        Some(ExchangeId::Binance)
    } else if lower == "kraken"@ {
        Some(ExchangeId::Kraken)
    } else if lower == "bybit"@ {
        Some(ExchangeId::Bybit)
    } else {
        None
    }
}

/// Parses an exchange name from a mappings file, case-insensitively.
pub fn parse_exchange_id(s: &str) -> (r: Option<ExchangeId>)
    ensures
        r == exchange_of_name(lowercase_of(s@)),
        all_ascii(s@) ==> r == exchange_of_name(ascii_lowercase(s@)),
{
    let lower = to_lowercase(s);
    let l = lower.as_str();
    if str_eq(l, "coinbase") {
        Some(ExchangeId::Coinbase)
    } else if str_eq(l, "binance") {
        Some(ExchangeId::Binance)
    } else if str_eq(l, "kraken") {
        Some(ExchangeId::Kraken)
    } else if str_eq(l, "bybit") {
        Some(ExchangeId::Bybit)
    } else {
        None
    }
}

/// Is `s` one of the listed words?
pub open spec fn one_of(s: Seq<char>, words: Seq<Seq<char>>) -> bool {
    exists|i: int| 0 <= i < words.len() && words[i] == s
}

/// Fiat currencies recognised as quotes.
pub open spec fn fiat_quotes() -> Seq<Seq<char>> {
    seq!["USD"@, "EUR"@, "GBP"@, "JPY"@]
}

/// Stablecoins recognised as quotes.
pub open spec fn stablecoin_quotes() -> Seq<Seq<char>> {
    seq!["USDT"@, "USDC"@, "BUSD"@, "DAI"@]
}

/// The kind of a quote asset seen on an exchange: fiat, stablecoin, or else crypto.
pub open spec fn quote_type_of(quote: Seq<char>, qt: QuoteType) -> bool {
    match qt {
        QuoteType::Fiat(q) => q@ == quote && one_of(quote, fiat_quotes()),
        QuoteType::Stablecoin(q) => q@ == quote && !one_of(quote, fiat_quotes()) && one_of(quote, stablecoin_quotes()),
        QuoteType::Crypto(q) => q@ == quote && !one_of(quote, fiat_quotes()) && !one_of(quote, stablecoin_quotes()),
    }
}

fn is_one_of4(s: &str, a: &str, b: &str, c: &str, d: &str) -> (r: bool)
    ensures
        r == one_of(s@, seq![a@, b@, c@, d@]),
{
    let r = str_eq(s, a) || str_eq(s, b) || str_eq(s, c) || str_eq(s, d);
    proof {
        let w = seq![a@, b@, c@, d@];
        if r {
            if s@ == a@ { assert(w[0] == s@); } else if s@ == b@ { assert(w[1] == s@); } else if s@ == c@ { assert(w[2] == s@); } else { assert(w[3] == s@); }
        } else {
            assert forall|i: int| 0 <= i < w.len() implies w[i] != s@ by {
                if i == 0 { } else if i == 1 { } else if i == 2 { } else { assert(i == 3); }
            }
        }
    }
    r
}

/// Classifies a quote asset as fiat, stablecoin or crypto.
pub fn classify_quote(quote: &str) -> (r: QuoteType)
    ensures
        quote_type_of(quote@, r),
{
    if is_one_of4(quote, "USD", "EUR", "GBP", "JPY") {
        QuoteType::Fiat(String::from_str(quote))
    } else if is_one_of4(quote, "USDT", "USDC", "BUSD", "DAI") {
        QuoteType::Stablecoin(String::from_str(quote))
    } else {
        QuoteType::Crypto(String::from_str(quote))
    }
}

/// The quote type a mappings file declares: "fiat", "stablecoin" or "crypto"
/// in any case; anything else counts as fiat.
pub open spec fn declared_quote_type(kind: Seq<char>, quote: Seq<char>, qt: QuoteType) -> bool {
    let lower = lowercase_of(kind);
    match qt {
        QuoteType::Fiat(q) => q@ == quote && lower != "stablecoin"@ && lower != "crypto"@,
        QuoteType::Stablecoin(q) => q@ == quote && lower == "stablecoin"@,
        QuoteType::Crypto(q) => q@ == quote && lower == "crypto"@,
    }
}

fn parse_quote_type(kind: &str, quote: &str) -> (r: QuoteType)
    ensures
        declared_quote_type(kind@, quote@, r),
{
    let lower = to_lowercase(kind);
    let l = lower.as_str();
    proof {
        reveal_strlit("stablecoin");
        reveal_strlit("crypto");
        reveal_strlit("fiat");
        assert("fiat"@.len() == 4 && "stablecoin"@.len() == 10 && "crypto"@.len() == 6);
        assert("fiat"@ != "stablecoin"@ && "fiat"@ != "crypto"@);
    }
    if str_eq(l, "fiat") {
        QuoteType::Fiat(String::from_str(quote))
    } else if str_eq(l, "stablecoin") {
        QuoteType::Stablecoin(String::from_str(quote))
    } else if str_eq(l, "crypto") {
        QuoteType::Crypto(String::from_str(quote))
    } else {
        QuoteType::Fiat(String::from_str(quote))
    }
}

/// The index key of an exchange symbol: "<exchange>:<symbol>".
pub open spec fn index_key(exchange: ExchangeId, symbol: Seq<char>) -> Seq<char> {
    exchange_name(exchange) + ":"@ + symbol
}

fn make_index_key(exchange: ExchangeId, symbol: &str) -> (r: String)
    ensures
        r@ == index_key(exchange, symbol@),
{
    let mut k = String::from_str(exchange.as_str());
    k.append(":");
    k.append(symbol);
    k
}

/// The contents of a list of strings.
pub open spec fn views(v: Seq<String>) -> Seq<Seq<char>> {
    v.map_values(|x: String| x@)
}

fn contains_str(v: &Vec<String>, s: &str) -> (r: bool)
    ensures
        r == views(v@).contains(s@),
{
    let mut i: usize = 0;
    while i < v.len()
        invariant
            i <= v@.len(),
            forall|j: int| 0 <= j < i ==> #[trigger] v@[j]@ != s@,
        decreases v@.len() - i,
    {
        if str_eq(v[i].as_str(), s) {
            assert(views(v@)[i as int] == s@);
            return true;
        }
        i = i + 1;
    }
    assert forall|j: int| 0 <= j < views(v@).len() implies views(v@)[j] != s@ by {
        assert(views(v@)[j] == v@[j]@);
    }
    false
}

/// A symbol map of base `base` whose quote is one of `quotes`.
pub open spec fn selected(m: ExchangeSymbolMap, base: Seq<char>, quotes: Seq<Seq<char>>) -> bool {
    m.base_asset@ == base && quotes.contains(m.quote_asset@)
}

/// `info` names one of the exchange symbols of `m`.
pub open spec fn info_from(info: SymbolInfo, m: ExchangeSymbolMap) -> bool {
    &&& info.normalized == m.normalized
    &&& info.active
    &&& m.exchange_symbols@.contains((info.exchange, info.symbol))
}

/// `info` names an exchange symbol of one of the selected maps.
pub open spec fn names_selected(ms: Map<Seq<char>, ExchangeSymbolMap>, base: Seq<char>, quotes: Seq<Seq<char>>, info: SymbolInfo) -> bool {
    exists|k: Seq<char>| #[trigger] ms.contains_key(k) && selected(ms[k], base, quotes) && info_from(info, ms[k])
}

/// `r` lists every exchange symbol of every selected map, each once, and nothing else.
pub open spec fn lists_selected(ms: Map<Seq<char>, ExchangeSymbolMap>, base: Seq<char>, quotes: Seq<Seq<char>>, r: Seq<SymbolInfo>) -> bool {
    &&& forall|i: int| 0 <= i < r.len() ==> #[trigger] names_selected(ms, base, quotes, r[i])
    &&& forall|k: Seq<char>, j: int| #[trigger] ms.contains_key(k) && selected(ms[k], base, quotes) && 0 <= j < ms[k].exchange_symbols@.len()
        ==> exists|i: int| 0 <= i < r.len() && r[i].exchange == #[trigger] ms[k].exchange_symbols@[j].0
            && r[i].symbol == ms[k].exchange_symbols@[j].1 && r[i].normalized == ms[k].normalized
    &&& forall|i: int, j: int| 0 <= i < j < r.len() ==> #[trigger] r[i].normalized@ != #[trigger] r[j].normalized@ || r[i].exchange != r[j].exchange
}

/// Some entry of `origin` is `(x, y)`.
pub open spec fn covered(origin: Seq<(int, int)>, x: int, y: int) -> bool {
    exists|i: int| 0 <= i < origin.len() && origin[i] == (x, y)
}

/// A member of an asset group.
pub open spec fn group_has(g: AssetGroup, q: Seq<char>) -> bool {
    views(g.members@).contains(q)
}

/// Two symbols are equivalent: the same symbol, two maps with one normalized
/// form, or two maps with one base asset whose quotes share an equivalence group.
pub open spec fn equivalent(ms: Map<Seq<char>, ExchangeSymbolMap>, groups: Seq<AssetGroup>, a: Seq<char>, b: Seq<char>) -> bool {
    ||| a == b
    ||| ms.contains_key(a) && ms.contains_key(b) && ms[a].normalized@ == ms[b].normalized@
    ||| ms.contains_key(a) && ms.contains_key(b) && ms[a].base_asset@ == ms[b].base_asset@
        && exists|g: int| 0 <= g < groups.len() && group_has(groups[g], ms[a].quote_asset@) && group_has(groups[g], ms[b].quote_asset@)
}

/// The exchange symbols an entry's exchange list yields: the symbol of each
/// recognised exchange name, a later one for the same exchange replacing an
/// earlier one.
pub open spec fn entry_symbols(pairs: Seq<(String, String)>) -> Seq<(ExchangeId, String)>
    decreases pairs.len(),
{
    if pairs.len() == 0 {
        Seq::empty()
    } else {
        let rest = entry_symbols(pairs.drop_last());
        match exchange_of_name(lowercase_of(pairs.last().0@)) {
            Some(id) => upserted(rest, id, pairs.last().1),
            None => rest,
        }
    }
}

/// The index after recording where an entry's exchange symbols normalize to.
pub open spec fn entry_index(idx: Map<Seq<char>, String>, normalized: String, pairs: Seq<(String, String)>) -> Map<Seq<char>, String>
    decreases pairs.len(),
{
    if pairs.len() == 0 {
        idx
    } else {
        let before = entry_index(idx, normalized, pairs.drop_last());
        match exchange_of_name(lowercase_of(pairs.last().0@)) {
            Some(id) => before.insert(index_key(id, pairs.last().1@), normalized),
            None => before,
        }
    }
}

/// The index after recording every entry of a file, in order.
pub open spec fn file_index(idx: Map<Seq<char>, String>, entries: Seq<SymbolMappingEntry>) -> Map<Seq<char>, String>
    decreases entries.len(),
{
    if entries.len() == 0 {
        idx
    } else {
        let e = entries.last();
        entry_index(file_index(idx, entries.drop_last()), e.normalized, e.exchanges@)
    }
}

/// `m` is the symbol map a file entry describes: a spot market with the
/// entry's assets, declared quote kind and exchange symbols.
pub open spec fn describes_entry(m: ExchangeSymbolMap, e: SymbolMappingEntry) -> bool {
    &&& m.normalized == e.normalized
    &&& m.exchange_symbols@ == entry_symbols(e.exchanges@)
    &&& m.asset_class == AssetClass::Spot
    &&& m.base_asset == e.base
    &&& m.quote_asset == e.quote
    &&& declared_quote_type(e.quote_type@, e.quote@, m.quote_type)
}

/// The position of the last entry for normalized symbol `k`, or -1.
pub open spec fn last_entry_for(entries: Seq<SymbolMappingEntry>, k: Seq<char>) -> int
    decreases entries.len(),
{
    if entries.len() == 0 {
        -1
    } else if entries.last().normalized@ == k {
        entries.len() - 1
    } else {
        last_entry_for(entries.drop_last(), k)
    }
}

proof fn lemma_last_entry_for(entries: Seq<SymbolMappingEntry>, k: Seq<char>)
    ensures
        -1 <= last_entry_for(entries, k) < entries.len(),
        last_entry_for(entries, k) >= 0 ==> entries[last_entry_for(entries, k)].normalized@ == k,
        last_entry_for(entries, k) == -1 <==> forall|i: int| 0 <= i < entries.len() ==> #[trigger] entries[i].normalized@ != k,
    decreases entries.len(),
{
    if entries.len() > 0 {
        lemma_last_entry_for(entries.drop_last(), k);
        if entries.last().normalized@ != k {
            assert forall|i: int| 0 <= i < entries.len() - 1 implies #[trigger] entries[i].normalized@ == entries.drop_last()[i].normalized@ by {}
        }
    }
}

proof fn lemma_entry_symbols_distinct(pairs: Seq<(String, String)>)
    ensures
        exchanges_distinct(entry_symbols(pairs)),
    decreases pairs.len(),
{
    if pairs.len() > 0 {
        lemma_entry_symbols_distinct(pairs.drop_last());
        let rest = entry_symbols(pairs.drop_last());
        match exchange_of_name(lowercase_of(pairs.last().0@)) {
            Some(id) => {
                let t = upserted(rest, id, pairs.last().1);
                if exists|i: int| 0 <= i < rest.len() && rest[i].0 == id {
                    let p = choose|i: int| 0 <= i < rest.len() && rest[i].0 == id;
                    assert forall|a: int, b: int| 0 <= a < b < t.len() implies #[trigger] t[a].0 != #[trigger] t[b].0 by {
                        assert(rest[a].0 != rest[b].0);
                    }
                } else {
                    assert forall|a: int, b: int| 0 <= a < b < t.len() implies #[trigger] t[a].0 != #[trigger] t[b].0 by {
                        if b < rest.len() {
                            assert(rest[a].0 != rest[b].0);
                        }
                    }
                }
            },
            None => {},
        }
    }
}

// ---------------------------------------------------------------------------
// The mapper

/// Maps symbols between exchanges and their normalized forms.
pub struct SymbolMapper {
    mappings: DashMap<String, ExchangeSymbolMap>,
    normalized_index: DashMap<String, String>,
    config: SymbolMappingsConfig,
}

impl SymbolMapper {
    /// The symbol maps, by normalized symbol.
    pub closed spec fn mappings(&self) -> Map<Seq<char>, ExchangeSymbolMap> {
        mapping_entries(self.mappings)
    }

    /// The normalized symbol of each "<exchange>:<symbol>".
    pub closed spec fn index(&self) -> Map<Seq<char>, String> {
        index_entries(self.normalized_index)
    }

    /// The configuration.
    pub closed spec fn config(&self) -> SymbolMappingsConfig {
        self.config
    }

    /// Every symbol map is filed under its own normalized symbol and lists
    /// each exchange once.
    pub open spec fn wf(&self) -> bool {
        forall|k: Seq<char>| #[trigger] self.mappings().contains_key(k) ==> self.mappings()[k].normalized@ == k
            && exchanges_distinct(self.mappings()[k].exchange_symbols@)
    }

    /// A mapper with no symbols. (Loading the configured mappings file is up
    /// to the caller, through `load_mappings`.)
    pub fn new(config: SymbolMappingsConfig) -> (r: SymbolMapper)
        ensures
            r.wf(),
            r.mappings() == no_mappings(),
            r.index() == no_index(),
            r.config() == config,
    {
        SymbolMapper { mappings: new_mapping_map(), normalized_index: new_index_map(), config }
    }

    /// The normalized form of `symbol` on `exchange`, if known.
    pub fn normalize(&self, exchange: ExchangeId, symbol: &str) -> (r: Option<String>)
        ensures
            r is Some <==> self.index().contains_key(index_key(exchange, symbol@)),
            r matches Some(n) ==> n == self.index()[index_key(exchange, symbol@)],
    {
        let key = make_index_key(exchange, symbol);
        index_get(&self.normalized_index, key.as_str())
    }

    /// The name of a normalized symbol on `exchange`, if known.
    pub fn to_exchange(&self, normalized: &str, exchange: ExchangeId) -> (r: Option<String>)
        requires
            self.wf(),
        ensures
            r is Some <==> self.mappings().contains_key(normalized@)
                && symbols_by_exchange(self.mappings()[normalized@].exchange_symbols@).contains_key(exchange),
            r matches Some(s) ==> s == symbols_by_exchange(self.mappings()[normalized@].exchange_symbols@)[exchange],
    {
        match mapping_get(&self.mappings, normalized) {
            Some(map) => symbol_of(&map.exchange_symbols, exchange),
            None => None,
        }
    }

    /// Adds a symbol listed by an exchange: its index entry, and its name in
    /// the map of its normalized symbol (created with the symbol's assets,
    /// class and quote kind if new).
    pub fn add_symbol(&mut self, symbol: Symbol)
        requires
            old(self).wf(),
        ensures
            final(self).wf(),
            final(self).config() == old(self).config(),
            final(self).index() == old(self).index().insert(index_key(symbol.exchange, symbol.exchange_symbol@), symbol.normalized),
            final(self).mappings().dom() == old(self).mappings().dom().insert(symbol.normalized@),
            forall|k: Seq<char>| k != symbol.normalized@ && #[trigger] old(self).mappings().contains_key(k) ==> final(self).mappings()[k] == old(self).mappings()[k],
            ({
                let m = final(self).mappings()[symbol.normalized@];
                &&& symbols_by_exchange(m.exchange_symbols@) == (if old(self).mappings().contains_key(symbol.normalized@) {
                        symbols_by_exchange(old(self).mappings()[symbol.normalized@].exchange_symbols@)
                    } else {
                        Map::empty()
                    }).insert(symbol.exchange, symbol.exchange_symbol)
                &&& old(self).mappings().contains_key(symbol.normalized@) ==> m == (ExchangeSymbolMap {
                        exchange_symbols: m.exchange_symbols,
                        ..old(self).mappings()[symbol.normalized@]
                    })
                &&& !old(self).mappings().contains_key(symbol.normalized@) ==> {
                        &&& m.normalized@ == symbol.normalized@
                        &&& m.asset_class == symbol.asset_class
                        &&& m.base_asset@ == symbol.base_asset@
                        &&& m.quote_asset@ == symbol.quote_asset@
                        &&& quote_type_of(symbol.quote_asset@, m.quote_type)
                    }
            }),
    {
        let key = make_index_key(symbol.exchange, symbol.exchange_symbol.as_str());
        index_insert(&mut self.normalized_index, key, symbol.normalized.clone());
        match mapping_get(&self.mappings, symbol.normalized.as_str()) {
            Some(map) => {
                let mut map = map;
                upsert_symbol(&mut map.exchange_symbols, symbol.exchange, symbol.exchange_symbol);
                mapping_insert(&mut self.mappings, symbol.normalized, map);
            },
            None => {
                let mut exchange_symbols: Vec<(ExchangeId, String)> = Vec::new();
                exchange_symbols.push((symbol.exchange, symbol.exchange_symbol));
                let ghost v = exchange_symbols@;
                assert(symbols_by_exchange(v) =~= Map::<ExchangeId, String>::empty().insert(symbol.exchange, symbol.exchange_symbol)) by {
                    assert(v[0].0 == symbol.exchange);
                }
                let map = ExchangeSymbolMap {
                    normalized: symbol.normalized.clone(),
                    exchange_symbols,
                    asset_class: symbol.asset_class,
                    base_asset: symbol.base_asset.clone(),
                    quote_asset: symbol.quote_asset.clone(),
                    quote_type: classify_quote(symbol.quote_asset.as_str()),
                };
                mapping_insert(&mut self.mappings, symbol.normalized, map);
            },
        }
    }

    /// Are two symbols equivalent?
    pub fn are_equivalent(&self, sym1: &str, sym2: &str) -> (r: bool)
        ensures
            r == equivalent(self.mappings(), self.config().equivalence_rules.quote_assets@, sym1@, sym2@),
    {
        if str_eq(sym1, sym2) {
            return true;
        }
        let m1 = mapping_get(&self.mappings, sym1);
        let m2 = mapping_get(&self.mappings, sym2);
        match m1 {
            Some(map1) => match m2 {
                Some(map2) => {
                    assert(map1 == self.mappings()[sym1@] && map2 == self.mappings()[sym2@]);
                    if str_eq(map1.normalized.as_str(), map2.normalized.as_str()) {
                        return true;
                    }
                    if str_eq(map1.base_asset.as_str(), map2.base_asset.as_str()) {
                        let groups = &self.config.equivalence_rules.quote_assets;
                        let mut g: usize = 0;
                        while g < groups.len()
                            invariant
                                g <= groups@.len(),
                                *groups == self.config().equivalence_rules.quote_assets,
                                self.mappings().contains_key(sym1@),
                                self.mappings().contains_key(sym2@),
                                map1 == self.mappings()[sym1@],
                                map2 == self.mappings()[sym2@],
                                map1.base_asset@ == map2.base_asset@,
                                sym1@ != sym2@,
                                map1.normalized@ != map2.normalized@,
                                forall|h: int| 0 <= h < g ==> !(group_has(#[trigger] groups@[h], map1.quote_asset@) && group_has(groups@[h], map2.quote_asset@)),
                            decreases groups@.len() - g,
                        {
                            if contains_str(&groups[g].members, map1.quote_asset.as_str())
                                && contains_str(&groups[g].members, map2.quote_asset.as_str()) {
                                assert(group_has(groups@[g as int], map1.quote_asset@) && group_has(groups@[g as int], map2.quote_asset@));
                                return true;
                            }
                            g = g + 1;
                        }
                    }
                    false
                },
                None => false,
            },
            None => false,
        }
    }

    /// The exchange symbols of every map with base `base` and a quote in `quotes`.
    fn collect_symbols(&self, base: &str, quotes: &Vec<String>) -> (r: Vec<SymbolInfo>)
        requires
            self.wf(),
        ensures
            lists_selected(self.mappings(), base@, views(quotes@), r@),
    {
        let ghost ms = self.mappings();
        let list = mapping_list(&self.mappings);
        let mut r: Vec<SymbolInfo> = Vec::new();
        let ghost mut origin: Seq<(int, int)> = Seq::empty();
        let mut a: usize = 0;
        while a < list.len()
            invariant
                ms == self.mappings(),
                self.wf(),
                forall|i: int| 0 <= i < list@.len() ==> ms.contains_key(#[trigger] list@[i].0@) && ms[list@[i].0@] == list@[i].1,
                forall|k: Seq<char>| ms.contains_key(k) ==> exists|i: int| 0 <= i < list@.len() && #[trigger] list@[i].0@ == k,
                forall|i: int, j: int| 0 <= i < j < list@.len() ==> #[trigger] list@[i].0@ != #[trigger] list@[j].0@,
                a <= list@.len(),
                origin.len() == r@.len(),
                forall|i: int| 0 <= i < r@.len() ==> {
                    let (x, y) = #[trigger] origin[i];
                    &&& 0 <= x < a
                    &&& 0 <= y < list@[x].1.exchange_symbols@.len()
                    &&& selected(list@[x].1, base@, views(quotes@))
                    &&& r@[i].exchange == list@[x].1.exchange_symbols@[y].0
                    &&& r@[i].symbol == list@[x].1.exchange_symbols@[y].1
                    &&& r@[i].normalized == list@[x].1.normalized
                    &&& r@[i].active
                },
                forall|i: int, j: int| 0 <= i < j < r@.len() ==> (#[trigger] origin[i]).0 < (#[trigger] origin[j]).0
                    || (origin[i].0 == origin[j].0 && origin[i].1 < origin[j].1),
                forall|x: int, y: int| 0 <= x < a && selected(list@[x].1, base@, views(quotes@)) && 0 <= y < list@[x].1.exchange_symbols@.len()
                    ==> #[trigger] covered(origin, x, y),
            decreases list@.len() - a,
        {
            let entry = &list[a];
            let map = &entry.1;
            if str_eq(map.base_asset.as_str(), base) && contains_str(quotes, map.quote_asset.as_str()) {
                let mut b: usize = 0;
                while b < map.exchange_symbols.len()
                    invariant
                        ms == self.mappings(),
                        a < list@.len(),
                        *map == list@[a as int].1,
                        selected(list@[a as int].1, base@, views(quotes@)),
                        b <= map.exchange_symbols@.len(),
                        origin.len() == r@.len(),
                        forall|i: int| 0 <= i < r@.len() ==> {
                            let (x, y) = #[trigger] origin[i];
                            &&& 0 <= x <= a
                            &&& (x == a ==> y < b)
                            &&& 0 <= y < list@[x].1.exchange_symbols@.len()
                            &&& selected(list@[x].1, base@, views(quotes@))
                            &&& r@[i].exchange == list@[x].1.exchange_symbols@[y].0
                            &&& r@[i].symbol == list@[x].1.exchange_symbols@[y].1
                            &&& r@[i].normalized == list@[x].1.normalized
                            &&& r@[i].active
                        },
                        forall|i: int, j: int| 0 <= i < j < r@.len() ==> (#[trigger] origin[i]).0 < (#[trigger] origin[j]).0
                            || (origin[i].0 == origin[j].0 && origin[i].1 < origin[j].1),
                        forall|x: int, y: int| 0 <= x < a && selected(list@[x].1, base@, views(quotes@)) && 0 <= y < list@[x].1.exchange_symbols@.len()
                            ==> #[trigger] covered(origin, x, y),
                        forall|y: int| 0 <= y < b ==> #[trigger] covered(origin, a as int, y),
                    decreases map.exchange_symbols@.len() - b,
                {
                    let pair = &map.exchange_symbols[b];
                    r.push(SymbolInfo {
                        exchange: pair.0,
                        symbol: pair.1.clone(),
                        normalized: map.normalized.clone(),
                        active: true,
                    });
                    proof {
                        let old_origin = origin;
                        origin = origin.push((a as int, b as int));
                        assert(origin[origin.len() - 1] == (a as int, b as int));
                        assert forall|x: int, y: int| 0 <= x < a && selected(list@[x].1, base@, views(quotes@)) && 0 <= y < list@[x].1.exchange_symbols@.len()
                            implies #[trigger] covered(origin, x, y) by {
                            assert(covered(old_origin, x, y));
                            let i = choose|i: int| 0 <= i < old_origin.len() && old_origin[i] == (x, y);
                            assert(origin[i] == old_origin[i]);
                        }
                        assert forall|y: int| 0 <= y < b + 1 implies #[trigger] covered(origin, a as int, y) by {
                            if y < b {
                                assert(covered(old_origin, a as int, y));
                                let i = choose|i: int| 0 <= i < old_origin.len() && old_origin[i] == (a as int, y);
                                assert(origin[i] == old_origin[i]);
                            } else {
                                assert(origin[origin.len() - 1] == (a as int, y));
                            }
                        }
                    }
                    b = b + 1;
                }
            }
            a = a + 1;
        }
        proof {
            let rr = r@;
            assert forall|i: int| 0 <= i < rr.len() implies #[trigger] names_selected(ms, base@, views(quotes@), rr[i]) by {
                let (x, y) = origin[i];
                let k = list@[x].0@;
                assert(ms.contains_key(k));
                assert(ms[k] == list@[x].1);
                assert(ms[k].exchange_symbols@[y] == (rr[i].exchange, rr[i].symbol));
                assert(ms[k].exchange_symbols@.contains((rr[i].exchange, rr[i].symbol)));
                assert(ms.contains_key(k) && selected(ms[k], base@, views(quotes@)) && info_from(rr[i], ms[k]));
            }
            assert forall|k: Seq<char>, j: int| #[trigger] ms.contains_key(k) && selected(ms[k], base@, views(quotes@)) && 0 <= j < ms[k].exchange_symbols@.len()
                implies exists|i: int| 0 <= i < rr.len() && rr[i].exchange == #[trigger] ms[k].exchange_symbols@[j].0
                    && rr[i].symbol == ms[k].exchange_symbols@[j].1 && rr[i].normalized == ms[k].normalized by {
                let x = choose|x: int| 0 <= x < list@.len() && #[trigger] list@[x].0@ == k;
                assert(list@[x].1 == ms[k]);
                assert(covered(origin, x, j));
                let i = choose|i: int| 0 <= i < origin.len() && origin[i] == (x, j);
                assert(rr[i].exchange == ms[k].exchange_symbols@[j].0);
            }
            assert forall|i: int, j: int| 0 <= i < j < rr.len() implies #[trigger] rr[i].normalized@ != #[trigger] rr[j].normalized@ || rr[i].exchange != rr[j].exchange by {
                let (xi, yi) = origin[i];
                let (xj, yj) = origin[j];
                if xi != xj {
                    assert(list@[xi].0@ != list@[xj].0@);
                    assert(ms[list@[xi].0@].normalized@ == list@[xi].0@);
                    assert(ms[list@[xj].0@].normalized@ == list@[xj].0@);
                } else {
                    assert(yi < yj);
                    assert(exchanges_distinct(ms[list@[xi].0@].exchange_symbols@));
                    assert(list@[xi].1.exchange_symbols@[yi].0 != list@[xi].1.exchange_symbols@[yj].0);
                }
            }
            assert(lists_selected(ms, base@, views(quotes@), rr));
        }
        r
    }

    /// The symbols of every map with base `base` and quote `quote`, on every
    /// exchange, each once (in no particular order).
    pub fn find_related(&self, base: &str, quote: &str) -> (r: Vec<SymbolInfo>)
        requires
            self.wf(),
        ensures
            lists_selected(self.mappings(), base@, seq![quote@], r@),
    {
        let mut quotes: Vec<String> = Vec::new();
        quotes.push(String::from_str(quote));
        assert(views(quotes@) =~= seq![quote@]);
        self.collect_symbols(base, &quotes)
    }

    /// The symbols of every map with base `asset` quoted in a member of the
    /// first equivalence group (the USD equivalents), on every exchange, each
    /// once (in no particular order).
    pub fn get_usd_pairs(&self, asset: &str) -> (r: Vec<SymbolInfo>)
        requires
            self.wf(),
            self.config().equivalence_rules.quote_assets@.len() > 0,
        ensures
            lists_selected(self.mappings(), asset@, views(self.config().equivalence_rules.quote_assets@[0].members@), r@),
    {
        let usd_equivalents = &self.config.equivalence_rules.quote_assets[0].members;
        self.collect_symbols(asset, usd_equivalents)
    }

    /// Records one entry of a mappings file: where each of its exchange
    /// symbols normalizes to, and its symbol map (replacing an earlier one).
    pub fn load_entry(&mut self, entry: SymbolMappingEntry)
        requires
            old(self).wf(),
        ensures
            final(self).wf(),
            final(self).config() == old(self).config(),
            final(self).index() == entry_index(old(self).index(), entry.normalized, entry.exchanges@),
            final(self).mappings().dom() == old(self).mappings().dom().insert(entry.normalized@),
            describes_entry(final(self).mappings()[entry.normalized@], entry),
            forall|k: Seq<char>| k != entry.normalized@ && #[trigger] old(self).mappings().contains_key(k) ==> final(self).mappings()[k] == old(self).mappings()[k],
    {
        let quote_type = parse_quote_type(entry.quote_type.as_str(), entry.quote.as_str());
        let mut exchange_symbols: Vec<(ExchangeId, String)> = Vec::new();
        let pairs = &entry.exchanges;
        let mut i: usize = 0;
        while i < pairs.len()
            invariant
                i <= pairs@.len(),
                *pairs == entry.exchanges,
                exchange_symbols@ == entry_symbols(pairs@.take(i as int)),
                exchanges_distinct(exchange_symbols@),
                self.index() == entry_index(old(self).index(), entry.normalized, pairs@.take(i as int)),
                self.mappings() == old(self).mappings(),
                self.config() == old(self).config(),
            decreases pairs@.len() - i,
        {
            assert(pairs@.take(i + 1).drop_last() =~= pairs@.take(i as int));
            assert(pairs@.take(i + 1).last() == pairs@[i as int]);
            match parse_exchange_id(pairs[i].0.as_str()) {
                Some(id) => {
                    upsert_symbol(&mut exchange_symbols, id, pairs[i].1.clone());
                    let key = make_index_key(id, pairs[i].1.as_str());
                    index_insert(&mut self.normalized_index, key, entry.normalized.clone());
                },
                None => {},
            }
            i = i + 1;
        }
        assert(pairs@.take(pairs@.len() as int) =~= pairs@);
        let map = ExchangeSymbolMap {
            normalized: entry.normalized.clone(),
            exchange_symbols,
            asset_class: AssetClass::Spot,
            base_asset: entry.base.clone(),
            quote_asset: entry.quote.clone(),
            quote_type,
        };
        mapping_insert(&mut self.mappings, entry.normalized, map);
    }

    /// Records every entry of a mappings file, in order.
    pub fn load_mappings(&mut self, file: SymbolMappingFile)
        requires
            old(self).wf(),
        ensures
            final(self).wf(),
            final(self).config() == old(self).config(),
            final(self).index() == file_index(old(self).index(), file.symbol_mappings@),
            forall|k: Seq<char>| #[trigger] final(self).mappings().contains_key(k) <==> old(self).mappings().contains_key(k)
                || last_entry_for(file.symbol_mappings@, k) >= 0,
            forall|k: Seq<char>| last_entry_for(file.symbol_mappings@, k) >= 0 ==>
                describes_entry(#[trigger] final(self).mappings()[k], file.symbol_mappings@[last_entry_for(file.symbol_mappings@, k)]),
            forall|k: Seq<char>| #[trigger] old(self).mappings().contains_key(k) && last_entry_for(file.symbol_mappings@, k) < 0 ==>
                final(self).mappings()[k] == old(self).mappings()[k],
    {
        let ghost entries = file.symbol_mappings@;
        let mut rest = file.symbol_mappings;
        let mut i: usize = 0;
        let n = rest.len();
        assert(rest@ =~= entries.skip(0));
        while i < n
            invariant
                n == entries.len(),
                rest@ == entries.skip(i as int),
                i <= n,
                self.wf(),
                self.config() == old(self).config(),
                self.index() == file_index(old(self).index(), entries.take(i as int)),
                forall|k: Seq<char>| #[trigger] self.mappings().contains_key(k) <==> old(self).mappings().contains_key(k)
                    || last_entry_for(entries.take(i as int), k) >= 0,
                forall|k: Seq<char>| last_entry_for(entries.take(i as int), k) >= 0 ==>
                    describes_entry(#[trigger] self.mappings()[k], entries[last_entry_for(entries.take(i as int), k)]),
                forall|k: Seq<char>| #[trigger] old(self).mappings().contains_key(k) && last_entry_for(entries.take(i as int), k) < 0 ==>
                    self.mappings()[k] == old(self).mappings()[k],
            decreases n - i,
        {
            let entry = rest.remove(0);
            assert(entry == entries[i as int]);
            assert(rest@ =~= entries.skip(i + 1));
            let ghost before = self.mappings();
            let ghost pre = entries.take(i as int);
            let ghost post = entries.take(i + 1);
            assert(post.drop_last() =~= pre);
            assert(post.last() == entry);
            assert(forall|k: Seq<char>| #[trigger] old(self).mappings().contains_key(k) && last_entry_for(pre, k) < 0 ==> before[k] == old(self).mappings()[k]);
            assert(forall|k: Seq<char>| #[trigger] before.contains_key(k) <==> old(self).mappings().contains_key(k) || last_entry_for(pre, k) >= 0);
            self.load_entry(entry);
            proof {
                assert forall|k: Seq<char>| #[trigger] self.mappings().contains_key(k) <==> old(self).mappings().contains_key(k)
                    || last_entry_for(post, k) >= 0 by {
                    if k == entries[i as int].normalized@ {
                        assert(last_entry_for(post, k) == i);
                    } else {
                        assert(last_entry_for(post, k) == last_entry_for(pre, k));
                    }
                }
                assert forall|k: Seq<char>| last_entry_for(post, k) >= 0 implies
                    describes_entry(#[trigger] self.mappings()[k], entries[last_entry_for(post, k)]) by {
                    if k != entries[i as int].normalized@ {
                        assert(last_entry_for(post, k) == last_entry_for(pre, k));
                        lemma_last_entry_for(pre, k);
                        assert(before.contains_key(k));
                    }
                }
                assert forall|k: Seq<char>| #[trigger] old(self).mappings().contains_key(k) && last_entry_for(post, k) < 0 implies
                    self.mappings()[k] == old(self).mappings()[k] by {
                    if k == entries[i as int].normalized@ {
                        assert(last_entry_for(post, k) == i);
                    } else {
                        assert(last_entry_for(post, k) == last_entry_for(pre, k));
                        assert(before.contains_key(k));
                        assert(before[k] == old(self).mappings()[k]);
                    }
                }
            }
            i = i + 1;
        }
        assert(entries.take(n as int) =~= entries);
    }
}

/// Symbol equivalence is reflexive and symmetric.
pub proof fn law_equivalence_reflexive_symmetric(ms: Map<Seq<char>, ExchangeSymbolMap>, groups: Seq<AssetGroup>, a: Seq<char>, b: Seq<char>)
    ensures
        equivalent(ms, groups, a, a),
        equivalent(ms, groups, a, b) == equivalent(ms, groups, b, a),
{
    if equivalent(ms, groups, a, b) && a != b && !(ms[a].normalized@ == ms[b].normalized@) {
        let g = choose|g: int| 0 <= g < groups.len() && group_has(groups[g], ms[a].quote_asset@) && group_has(groups[g], ms[b].quote_asset@);
        assert(group_has(groups[g], ms[b].quote_asset@) && group_has(groups[g], ms[a].quote_asset@));
    }
    if equivalent(ms, groups, b, a) && a != b && !(ms[a].normalized@ == ms[b].normalized@) {
        let g = choose|g: int| 0 <= g < groups.len() && group_has(groups[g], ms[b].quote_asset@) && group_has(groups[g], ms[a].quote_asset@);
        assert(group_has(groups[g], ms[a].quote_asset@) && group_has(groups[g], ms[b].quote_asset@));
    }
}

/// A symbol an exchange listed normalizes to its normalized form, and its
/// normalized form leads back to it on that exchange: the index and map that
/// `add_symbol` leaves behind answer `normalize` and `to_exchange` so.
pub proof fn law_added_symbol_round_trips(
    index: Map<Seq<char>, String>,
    exchange_symbols: Map<ExchangeId, String>,
    s: Symbol,
)
    ensures
        index.insert(index_key(s.exchange, s.exchange_symbol@), s.normalized).contains_key(index_key(s.exchange, s.exchange_symbol@)),
        index.insert(index_key(s.exchange, s.exchange_symbol@), s.normalized)[index_key(s.exchange, s.exchange_symbol@)] == s.normalized,
        exchange_symbols.insert(s.exchange, s.exchange_symbol).contains_key(s.exchange),
        exchange_symbols.insert(s.exchange, s.exchange_symbol)[s.exchange] == s.exchange_symbol,
{
}

} // verus!
