use gpu_charts::symbol_mapper::{AssetGroup, EquivalenceRules, SymbolMapper, SymbolMappingsConfig};
use gpu_charts::utils::normalize_symbol_binance;

fn create_test_mapper() -> SymbolMapper {
    SymbolMapper::new(SymbolMappingsConfig {
        mappings_file: None,
        auto_discover: true,
        equivalence_rules: EquivalenceRules {
            quote_assets: vec![AssetGroup {
                group: "USD_EQUIVALENT".to_string(),
                members: vec!["USDT".to_string()],
                primary: "USD".to_string(),
            }],
        },
    })
}

#[test]
fn parser_test_symbol_normalization() {
    let _mapper = create_test_mapper();

    assert_eq!(normalize_symbol_binance("BTCUSDT"), "BTC-USDT");
    assert_eq!(normalize_symbol_binance("ETHBUSD"), "ETH-BUSD");
    assert_eq!(normalize_symbol_binance("BNBBTC"), "BNB-BTC");
}

#[test]
fn binance_pairs_split_before_the_first_fitting_quote() {
    assert_eq!(normalize_symbol_binance("SOLUSDC"), "SOL-USDC");
    assert_eq!(normalize_symbol_binance("LINKETH"), "LINK-ETH");
    assert_eq!(normalize_symbol_binance("ADABNB"), "ADA-BNB");
    // "USDT" is tried before "BTC"
    assert_eq!(normalize_symbol_binance("WBTCUSDT"), "WBTC-USDT");
}

#[test]
fn names_without_a_known_quote_are_kept() {
    assert_eq!(normalize_symbol_binance("USDT"), "USDT");
    assert_eq!(normalize_symbol_binance("BTC"), "BTC");
    assert_eq!(normalize_symbol_binance("XRPEUR"), "XRPEUR");
    assert_eq!(normalize_symbol_binance(""), "");
}
