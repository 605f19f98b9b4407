use gpu_charts::data_types::{AssetClass, ExchangeId, QuoteType};
use gpu_charts::symbol_mapper::{
    classify_quote, parse_exchange_id, AssetGroup, EquivalenceRules, Symbol, SymbolMapper, SymbolMappingEntry,
    SymbolMappingFile, SymbolMappingsConfig,
};

fn config(members: &[&str]) -> SymbolMappingsConfig {
    SymbolMappingsConfig {
        mappings_file: None,
        auto_discover: true,
        equivalence_rules: EquivalenceRules {
            quote_assets: vec![AssetGroup {
                group: "USD_EQUIVALENT".to_string(),
                members: members.iter().map(|m| m.to_string()).collect(),
                primary: "USD".to_string(),
            }],
        },
    }
}

fn symbol(exchange: ExchangeId, exchange_symbol: &str, normalized: &str, base: &str, quote: &str) -> Symbol {
    Symbol {
        exchange,
        exchange_symbol: exchange_symbol.to_string(),
        normalized: normalized.to_string(),
        base_asset: base.to_string(),
        quote_asset: quote.to_string(),
        asset_class: AssetClass::Spot,
        active: true,
    }
}

fn create_test_mapper() -> SymbolMapper {
    let mut mapper = SymbolMapper::new(config(&["USD", "USDT", "USDC"]));
    mapper.add_symbol(symbol(ExchangeId::Coinbase, "BTC-USD", "BTC-USD", "BTC", "USD"));
    mapper.add_symbol(symbol(ExchangeId::Binance, "BTCUSDT", "BTC-USDT", "BTC", "USDT"));
    mapper
}

#[test]
fn symbol_mapper_test_symbol_normalization() {
    let mapper = create_test_mapper();
    assert_eq!(mapper.normalize(ExchangeId::Coinbase, "BTC-USD"), Some("BTC-USD".to_string()));
    assert_eq!(mapper.normalize(ExchangeId::Binance, "BTCUSDT"), Some("BTC-USDT".to_string()));
}

#[test]
fn test_symbol_to_exchange() {
    let mapper = create_test_mapper();
    assert_eq!(mapper.to_exchange("BTC-USD", ExchangeId::Coinbase), Some("BTC-USD".to_string()));
    assert_eq!(mapper.to_exchange("BTC-USDT", ExchangeId::Binance), Some("BTCUSDT".to_string()));
}

#[test]
fn test_find_usd_pairs() {
    let mapper = create_test_mapper();
    let pairs = mapper.get_usd_pairs("BTC");

    assert_eq!(pairs.len(), 2);
    assert!(pairs.iter().any(|p| p.symbol == "BTC-USD"));
    assert!(pairs.iter().any(|p| p.symbol == "BTCUSDT"));
}

#[test]
fn test_symbol_equivalence() {
    let mut mapper = create_test_mapper();

    // Same symbol
    assert!(mapper.are_equivalent("BTC-USD", "BTC-USD"));

    // Different but equivalent (same base, equivalent quote)
    assert!(mapper.are_equivalent("BTC-USD", "BTC-USDT"));

    // Not equivalent
    mapper.add_symbol(symbol(ExchangeId::Coinbase, "ETH-USD", "ETH-USD", "ETH", "USD"));

    assert!(!mapper.are_equivalent("BTC-USD", "ETH-USD"));
}

#[test]
fn test_symbol_mapper_integration() {
    let mut mapper = SymbolMapper::new(config(&["USD", "USDT"]));
    mapper.add_symbol(symbol(ExchangeId::Coinbase, "BTC-USD", "BTC-USD", "BTC", "USD"));
    mapper.add_symbol(symbol(ExchangeId::Binance, "BTCUSDT", "BTC-USDT", "BTC", "USDT"));

    // Test normalization
    assert_eq!(mapper.normalize(ExchangeId::Coinbase, "BTC-USD"), Some("BTC-USD".to_string()));
    assert_eq!(mapper.normalize(ExchangeId::Binance, "BTCUSDT"), Some("BTC-USDT".to_string()));

    // Test finding related symbols
    let btc_usd_pairs = mapper.find_related("BTC", "USD");
    assert_eq!(btc_usd_pairs.len(), 1);
    assert_eq!(btc_usd_pairs[0].symbol, "BTC-USD");
}

#[test]
fn one_normalized_symbol_across_exchanges() {
    let mut mapper = SymbolMapper::new(config(&["USD"]));
    mapper.add_symbol(symbol(ExchangeId::Coinbase, "BTC-USD", "BTC-USD", "BTC", "USD"));
    mapper.add_symbol(symbol(ExchangeId::Kraken, "XBT/USD", "BTC-USD", "BTC", "USD"));
    mapper.add_symbol(symbol(ExchangeId::Kraken, "XBTUSD", "BTC-USD", "BTC", "USD"));
    assert_eq!(mapper.to_exchange("BTC-USD", ExchangeId::Kraken), Some("XBTUSD".to_string()));
    assert_eq!(mapper.to_exchange("BTC-USD", ExchangeId::Binance), None);
    assert_eq!(mapper.normalize(ExchangeId::Kraken, "XBT/USD"), Some("BTC-USD".to_string()));
    let related = mapper.find_related("BTC", "USD");
    assert_eq!(related.len(), 2);
    assert!(related.iter().all(|r| r.normalized == "BTC-USD" && r.active));
    assert!(mapper.find_related("BTC", "EUR").is_empty());
}

#[test]
fn quotes_are_classified() {
    assert_eq!(classify_quote("EUR"), QuoteType::Fiat("EUR".to_string()));
    assert_eq!(classify_quote("DAI"), QuoteType::Stablecoin("DAI".to_string()));
    assert_eq!(classify_quote("BTC"), QuoteType::Crypto("BTC".to_string()));
    assert_eq!(parse_exchange_id("Binance"), Some(ExchangeId::Binance));
    assert_eq!(parse_exchange_id("BYBIT"), Some(ExchangeId::Bybit));
    assert_eq!(parse_exchange_id("okx"), None);
}

#[test]
fn mappings_files_are_loaded() {
    let mut mapper = SymbolMapper::new(config(&["USD", "USDT"]));
    mapper.load_mappings(SymbolMappingFile {
        symbol_mappings: vec![
            SymbolMappingEntry {
                normalized: "ETH-USDT".to_string(),
                base: "ETH".to_string(),
                quote: "USDT".to_string(),
                quote_type: "StableCoin".to_string(),
                exchanges: vec![
                    ("binance".to_string(), "ETHUSDT".to_string()),
                    ("okx".to_string(), "ETH-USDT".to_string()),
                ],
            },
            SymbolMappingEntry {
                normalized: "ETH-USD".to_string(),
                base: "ETH".to_string(),
                quote: "USD".to_string(),
                quote_type: "weird".to_string(),
                exchanges: vec![("Coinbase".to_string(), "ETH-USD".to_string())],
            },
        ],
    });
    assert_eq!(mapper.normalize(ExchangeId::Binance, "ETHUSDT"), Some("ETH-USDT".to_string()));
    assert_eq!(mapper.normalize(ExchangeId::OKX, "ETH-USDT"), None);
    assert_eq!(mapper.to_exchange("ETH-USD", ExchangeId::Coinbase), Some("ETH-USD".to_string()));
    assert!(mapper.are_equivalent("ETH-USD", "ETH-USDT"));
    assert_eq!(mapper.get_usd_pairs("ETH").len(), 2);
}
