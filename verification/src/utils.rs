//! Timestamp splitting, reconnection back-off and UUID byte conversion.
use vstd::prelude::*;
use crate::text::{seq_ends_with, str_ends_with};

verus! {

/// Splits a millisecond Unix timestamp into (seconds, nanoseconds); the seconds
/// are kept modulo 2^32 as in the on-disk `u32` column.
pub fn parse_timestamp_millis(millis: u64) -> (r: (u32, u32))
    ensures
        r.0 as int == (millis / 1000) as int % 0x1_0000_0000,
        r.1 as int == (millis % 1000) as int * 1_000_000,
        r.1 < 1_000_000_000,
{
    let seconds = millis / 1000;
    let nanos = ((millis % 1000) * 1_000_000) as u32;
    ((seconds % 0x1_0000_0000) as u32, nanos)
}

/// Splits a microsecond Unix timestamp into (seconds, nanoseconds); the seconds
/// are kept modulo 2^32.
pub fn parse_timestamp_micros(micros: u64) -> (r: (u32, u32))
    ensures
        r.0 as int == (micros / 1_000_000) as int % 0x1_0000_0000,
        r.1 as int == (micros % 1_000_000) as int * 1000,
        r.1 < 1_000_000_000,
{
    let seconds = micros / 1_000_000;
    let nanos = ((micros % 1_000_000) * 1_000) as u32;
    ((seconds % 0x1_0000_0000) as u32, nanos)
}

/// A span of time: whole seconds plus a sub-second part in nanoseconds.
/// Spans compare lexicographically on (secs, nanos).
#[derive(Debug, Clone, Copy, PartialEq, Eq, Structural)]
pub struct Delay {
    pub secs: u64,
    pub nanos: u32,
}

/// `a` is no longer than `b`.
pub open spec fn delay_le(a: Delay, b: Delay) -> bool {
    a.secs < b.secs || (a.secs == b.secs && a.nanos <= b.nanos)
}

impl Delay {
    /// A span of whole seconds.
    pub fn from_secs(secs: u64) -> (r: Delay)
        ensures
            r.secs == secs,
            r.nanos == 0,
    {
        Delay { secs, nanos: 0 }
    }

    /// The shorter of two spans; `self` when they are equal.
    pub fn min(self, other: Delay) -> (r: Delay)
        ensures
            r == (if delay_le(self, other) { self } else { other }),
    {
        if self.secs < other.secs || (self.secs == other.secs && self.nanos <= other.nanos) {
            self
        } else {
            other
        }
    }
}

/// 2 to the power `n`.
pub open spec fn pow2(n: nat) -> nat
    decreases n,
{
    if n == 0 {
        1
    } else {
        2 * pow2((n - 1) as nat)
    }
}

proof fn lemma_pow2_small(n: nat)
    requires
        n <= 10,
    ensures
        pow2(n) <= 1024,
{
    reveal_with_fuel(pow2, 11);
    assert(pow2(10) == 1024);
    lemma_pow2_mono(n, 10);
}

proof fn lemma_pow2_nine(n: nat)
    requires
        n <= 9,
    ensures
        pow2(n) <= 512,
{
    reveal_with_fuel(pow2, 10);
    assert(pow2(9) == 512);
    lemma_pow2_mono(n, 9);
}

proof fn lemma_pow2_mono(a: nat, b: nat)
    requires
        a <= b,
    ensures
        pow2(a) <= pow2(b),
    decreases b,
{
    if a < b {
        lemma_pow2_mono(a, (b - 1) as nat);
    }
}

/// The back-off delay before reconnection attempt `attempt`: 2^min(attempt, 10)
/// seconds, capped at `max_delay`.
pub open spec fn backoff_delay(attempt: u32, max_delay: Delay) -> Delay {
    let exp: nat = if attempt <= 10 { attempt as nat } else { 10 };
    let d = Delay { secs: pow2(exp) as u64, nanos: 0 };
    if delay_le(d, max_delay) { d } else { max_delay }
}

/// Exponential back-off: 2^min(attempt, 10) seconds, never more than `max_delay`.
pub fn exponential_backoff(attempt: u32, max_delay: Delay) -> (r: Delay)
    ensures
        r == backoff_delay(attempt, max_delay),
        delay_le(r, max_delay),
{
    let exp: u32 = if attempt <= 10 { attempt } else { 10 };
    let mut secs: u64 = 1;
    let mut i: u32 = 0;
    while i < exp
        invariant
            exp <= 10,
            i <= exp,
            secs as nat == pow2(i as nat),
        decreases exp - i,
    {
        proof {
            lemma_pow2_nine(i as nat);
        }
        secs = secs * 2;
        i = i + 1;
    }
    proof {
        lemma_pow2_small(exp as nat);
    }
    Delay::from_secs(secs).min(max_delay)
}

/// The quote assets by which a Binance pair name is split, in the order they
/// are tried.
pub open spec fn binance_quotes() -> Seq<Seq<char>> {
    seq!["USDT"@, "BUSD"@, "USDC"@, "BTC"@, "ETH"@, "BNB"@]
}

/// `symbol` split before the first of `quotes` that it ends with (and is longer
/// than), the two parts joined by "-"; `symbol` itself when none fits.
pub open spec fn split_pair(symbol: Seq<char>, quotes: Seq<Seq<char>>) -> Seq<char>
    decreases quotes.len(),
{
    if quotes.len() == 0 {
        symbol
    } else if symbol.len() > quotes[0].len() && seq_ends_with(symbol, quotes[0]) {
        symbol.subrange(0, symbol.len() - quotes[0].len()) + "-"@ + quotes[0]
    } else {
        split_pair(symbol, quotes.drop_first())
    }
}

/// The normalized form of a Binance pair name: "BTCUSDT" becomes "BTC-USDT",
/// "BNBBTC" becomes "BNB-BTC"; a name that ends in none of the quote assets is
/// kept as it is.
pub fn normalize_symbol_binance(symbol: &str) -> (r: String)
    ensures
        r@ == split_pair(symbol@, binance_quotes()),
{
    let quotes: [&str; 6] = ["USDT", "BUSD", "USDC", "BTC", "ETH", "BNB"];
    let ghost qs = binance_quotes();
    assert(quotes@.map_values(|q: &str| q@) =~= qs);
    assert(qs.skip(0) =~= qs);
    let n = symbol.unicode_len();
    let mut i: usize = 0;
    while i < 6
        invariant
            0 <= i <= 6,
            n == symbol@.len(),
            qs == binance_quotes(),
            quotes@.map_values(|q: &str| q@) == qs,
            split_pair(symbol@, qs) == split_pair(symbol@, qs.skip(i as int)),
        decreases 6 - i,
    {
        let q = quotes[i];
        assert(q@ == qs[i as int]);
        assert(qs.skip(i as int)[0] == qs[i as int]);
        assert(qs.skip(i as int).drop_first() =~= qs.skip(i + 1));
        let ql = q.unicode_len();
        if n > ql && str_ends_with(symbol, q) {
            let mut out = String::from_str(symbol.substring_char(0, n - ql));
            out.append("-");
            out.append(q);
            return out;
        }
        i = i + 1;
    }
    assert(qs.skip(6) =~= Seq::<Seq<char>>::empty());
    String::from_str(symbol)
}

/// The `uuid` crate's UUID value, carried through opaquely.
#[verifier::external_type_specification]
#[verifier::external_body]
pub struct ExUuid(uuid::Uuid);

/// The `uuid` crate's parse error, carried through opaquely.
#[verifier::external_type_specification]
#[verifier::external_body]
pub struct ExUuidError(uuid::Error);

/// The value of a hexadecimal digit in either case, if `c` is one.
pub open spec fn hex_value(c: char) -> Option<nat> {
    if '0' <= c && c <= '9' {
        Some((c as nat - '0' as nat) as nat)
    } else if 'a' <= c && c <= 'f' {
        Some((c as nat - 'a' as nat + 10) as nat)
    } else if 'A' <= c && c <= 'F' {
        Some((c as nat - 'A' as nat + 10) as nat)
    } else {
        None
    }
}

/// The 16 bytes that 32 hexadecimal digits spell, two digits a byte, most
/// significant digit first.
pub open spec fn hex32_bytes(h: Seq<char>) -> Option<Seq<u8>> {
    if h.len() == 32 && forall|i: int| 0 <= i < 32 ==> #[trigger] hex_value(h[i]) is Some {
        Some(Seq::new(16, |j: int| (hex_value(h[2 * j]).unwrap() * 16 + hex_value(h[2 * j + 1]).unwrap()) as u8))
    } else {
        None
    }
}

/// The bytes of a hyphenated UUID: 36 characters with hyphens at positions 8,
/// 13, 18 and 23 and hexadecimal digits elsewhere.
pub open spec fn hyphenated_bytes(s: Seq<char>) -> Option<Seq<u8>> {
    if s.len() == 36 && s[8] == '-' && s[13] == '-' && s[18] == '-' && s[23] == '-' {
        hex32_bytes(s.subrange(0, 8) + s.subrange(9, 13) + s.subrange(14, 18) + s.subrange(19, 23) + s.subrange(24, 36))
    } else {
        None
    }
}

/// `c` in ASCII lower case.
pub open spec fn ascii_lower(c: char) -> char {
    if 'A' <= c && c <= 'Z' { ((c as nat) + 32) as char } else { c }
}

/// `p` is "urn:uuid:", letters in either case.
pub open spec fn is_urn_prefix(p: Seq<char>) -> bool {
    p.len() == 9 && forall|i: int| 0 <= i < 9 ==> #[trigger] ascii_lower(p[i]) == "urn:uuid:"@[i]
}

/// The 16 bytes that `uuid::Uuid::parse_str` reads from a text, or `None` where
/// it refuses it: 32 hexadecimal digits; a hyphenated UUID; one in braces; or
/// one after "urn:uuid:" (hexadecimal digits and the prefix in either case).
pub open spec fn uuid_text_bytes(s: Seq<char>) -> Option<Seq<u8>> {
    if s.len() == 32 {
        hex32_bytes(s)
    } else if s.len() == 36 {
        hyphenated_bytes(s)
    } else if s.len() == 38 && s[0] == '{' && s[37] == '}' {
        hyphenated_bytes(s.subrange(1, 37))
    } else if s.len() == 45 && is_urn_prefix(s.subrange(0, 9)) {
        hyphenated_bytes(s.subrange(9, 45))
    } else {
        None
    }
}

/// Calls `uuid::Uuid::parse_str` and takes the parsed value's bytes
/// (`Uuid::as_bytes`). Claimed: it succeeds exactly on the texts that
/// `uuid_text_bytes` describes (the crate's `try_parse`), with those bytes.
#[verifier::external_body]
fn uuid_parse_bytes(s: &str) -> (r: Result<[u8; 16], uuid::Error>)
    ensures
        match r {
            Ok(b) => uuid_text_bytes(s@) == Some(b@),
            Err(_) => uuid_text_bytes(s@) is None,
        },
{
    uuid::Uuid::parse_str(s).map(|u| *u.as_bytes())
}

/// Converts a textual UUID into its 16 bytes.
pub fn uuid_to_bytes(uuid_str: &str) -> (r: Result<[u8; 16], uuid::Error>)
    ensures
        r is Ok <==> uuid_text_bytes(uuid_str@) is Some,
        r matches Ok(b) ==> uuid_text_bytes(uuid_str@) == Some(b@),
{
    uuid_parse_bytes(uuid_str)
}

/// Builds a `uuid::Uuid` from its 16 bytes (`Uuid::from_bytes`); nothing is
/// proved of the result, which stays opaque here.
#[verifier::external_body]
pub fn bytes_to_uuid(bytes: &[u8; 16]) -> uuid::Uuid {
    uuid::Uuid::from_bytes(*bytes)
}

} // verus!
