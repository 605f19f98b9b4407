//! Exchange identifiers, trade sides and asset descriptors shared by the logger.
use vstd::prelude::*;
use crate::text::str_eq;

verus! {

/// The exchanges that the logger knows about.
#[derive(Debug, Clone, Copy, PartialEq, Eq, Hash, Structural)]
pub enum ExchangeId {
    Coinbase,
    Binance,
    Kraken,
    Bybit,
    OKX,
    Bitfinex,
}

/// The lower-case name under which an exchange appears in paths, keys and metrics.
pub open spec fn exchange_name(e: ExchangeId) -> Seq<char> {
    match e {
        ExchangeId::Coinbase => "coinbase"@,
        ExchangeId::Binance => "binance"@,
        ExchangeId::Kraken => "kraken"@,
        ExchangeId::Bybit => "bybit"@,
        ExchangeId::OKX => "okx"@,
        ExchangeId::Bitfinex => "bitfinex"@,
    }
}

impl ExchangeId {
    /// The exchange's lower-case name.
    pub fn as_str(&self) -> (r: &'static str)
        ensures
            r@ == exchange_name(*self),
    {
        match self {
            ExchangeId::Coinbase => "coinbase",
            ExchangeId::Binance => "binance",
            ExchangeId::Kraken => "kraken",
            ExchangeId::Bybit => "bybit",
            ExchangeId::OKX => "okx",
            ExchangeId::Bitfinex => "bitfinex",
        }
    }
}

/// Aggressor side of a trade; stored on disk as 0 (buy) and 1 (sell).
#[derive(Debug, Clone, Copy, PartialEq, Eq, Structural)]
pub enum TradeSide {
    Buy,
    Sell,
}

/// The numeric code of a side.
pub open spec fn side_code(s: TradeSide) -> u32 {
    match s {
        TradeSide::Buy => 0,
        TradeSide::Sell => 1,
    }
}

/// What an already lower-cased side word denotes.
pub open spec fn side_of_lowercase(s: Seq<char>) -> Option<TradeSide> {
    if s == "buy"@ || s == "b"@ {
        Some(TradeSide::Buy)
    } else if s == "sell"@ || s == "s"@ {
        Some(TradeSide::Sell)
    } else {
        None
    }
}

/// Names the result of `str::to_lowercase` (Unicode lower-case mapping) on a string.
pub uninterp spec fn lowercase_of(s: Seq<char>) -> Seq<char>;

/// Every character of `s` is ASCII.
pub open spec fn all_ascii(s: Seq<char>) -> bool {
    forall|i: int| 0 <= i < s.len() ==> (#[trigger] s[i] as u32) < 128
}

/// `s` with its ASCII capitals in lower case.
pub open spec fn ascii_lowercase(s: Seq<char>) -> Seq<char> {
    s.map_values(|c: char| crate::utils::ascii_lower(c))
}

/// Calls `str::to_lowercase`. The contract claims that the result is the
/// (named) Unicode lower-case mapping of the input, a function of the input
/// alone, and that on ASCII text it lowers the capitals A to Z and keeps every
/// other character; what it does to other characters is left to the name.
#[verifier::external_body]
pub(crate) fn to_lowercase(s: &str) -> (r: String)
    ensures
        r@ == lowercase_of(s@),
        all_ascii(s@) ==> r@ == ascii_lowercase(s@),
{
    s.to_lowercase()
}

/// Names the result of `str::to_uppercase` (Unicode upper-case mapping) on a string.
pub uninterp spec fn uppercase_of(s: Seq<char>) -> Seq<char>;

/// `c` in ASCII upper case.
pub open spec fn ascii_upper(c: char) -> char {
    if 'a' <= c && c <= 'z' { ((c as nat) - 32) as char } else { c }
}

/// `s` with its ASCII small letters in upper case.
pub open spec fn ascii_uppercase(s: Seq<char>) -> Seq<char> {
    s.map_values(|c: char| ascii_upper(c))
}

/// Calls `str::to_uppercase`. The contract claims that the result is the
/// (named) Unicode upper-case mapping of the input, a function of the input
/// alone, and that on ASCII text it raises the letters a to z and keeps every
/// other character; what it does to other characters is left to the name.
#[verifier::external_body]
pub(crate) fn to_uppercase(s: &str) -> (r: String)
    ensures
        r@ == uppercase_of(s@),
        all_ascii(s@) ==> r@ == ascii_uppercase(s@),
{
    s.to_uppercase()
}

impl TradeSide {
    /// Parses a side word, case-insensitively: "buy"/"b" and "sell"/"s".
    pub fn parse(s: &str) -> (r: Option<TradeSide>)
        ensures
            r == side_of_lowercase(lowercase_of(s@)),
            all_ascii(s@) ==> r == side_of_lowercase(ascii_lowercase(s@)),
    {
        let lower = to_lowercase(s);
        TradeSide::parse_lowercase(lower.as_str())
    }

    /// Classifies a side word that is already in lower case.
    pub fn parse_lowercase(s: &str) -> (r: Option<TradeSide>)
        ensures
            r == side_of_lowercase(s@),
    {
        if str_eq(s, "buy") || str_eq(s, "b") {
            Some(TradeSide::Buy)
        } else if str_eq(s, "sell") || str_eq(s, "s") {
            Some(TradeSide::Sell)
        } else {
            None
        }
    }

    /// The on-disk code of the side.
    pub fn as_u32(&self) -> (r: u32)
        ensures
            r == side_code(*self),
    {
        match self {
            TradeSide::Buy => 0,
            TradeSide::Sell => 1,
        }
    }
}

/// Market segment of an instrument.
#[derive(Debug, Clone, Copy, PartialEq, Eq, Structural)]
pub enum AssetClass {
    Spot,
    Futures,
    Options,
}

/// Kind of quote currency, carrying its ticker.
#[derive(Debug, Clone, PartialEq, Eq)]
pub enum QuoteType {
    Fiat(String),
    Stablecoin(String),
    Crypto(String),
}

} // verus!
