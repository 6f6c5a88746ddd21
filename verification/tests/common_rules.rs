use sinopac_nt::common::consts::{SINOPAC, SINOPAC_GATEWAY_HTTP_URL, SINOPAC_GATEWAY_WS_URL};
use sinopac_nt::common::datetime::LocalDateTime;
use sinopac_nt::common::decimal::u64_to_decimal;
use sinopac_nt::common::enums::{SinopacAction, SinopacOCType, SinopacOrderEvent};
use sinopac_nt::common::instrument::{
    aggressor_from_tick_type, futures_multiplier, options_multiplier, parse_option_right,
    resolve_multiplier, resolve_underlying, underlying_is_index, OptionRight, TickAggressor,
    DEFAULT_CONTRACT_MULTIPLIER,
};
use sinopac_nt::common::parse::{
    instrument_id_text, parse_order_side, taiwan_naive_to_unix_nanos, TimeError,
};
use sinopac_nt::common::text::str_equals;
use sinopac_nt::common::tick_size::{
    futures_tick_for_contract, index_futures_tick_size, options_tick_size,
    single_stock_futures_tick_size, stock_tick_for_contract, twse_etf_tick_size,
    twse_stock_tick_size, TickSize,
};
use sinopac_nt::common::urls::{gateway_http_url, gateway_ws_url, resolve_ws_url};

fn tick(units: u32, precision: u8) -> TickSize {
    TickSize { units, precision }
}

#[test]
fn test_constants() {
    assert_eq!(SINOPAC, "SINOPAC");
    assert_eq!(SINOPAC_GATEWAY_HTTP_URL, "http://localhost:8000");
    assert_eq!(SINOPAC_GATEWAY_WS_URL, "ws://localhost:8000/ws");
}

#[test]
fn test_octype_default_is_auto() {
    assert_eq!(SinopacOCType::default(), SinopacOCType::Auto);
}

#[test]
fn test_order_event_names_round_trip() {
    for e in [
        SinopacOrderEvent::StockOrder,
        SinopacOrderEvent::StockDeal,
        SinopacOrderEvent::FuturesOrder,
        SinopacOrderEvent::FuturesDeal,
    ] {
        assert_eq!(SinopacOrderEvent::from_event_name(e.event_name()), Some(e));
    }
    assert_eq!(SinopacOrderEvent::StockDeal.event_name(), "OrderState.StockDeal");
    assert_eq!(SinopacOrderEvent::from_event_name("OrderState.Unknown"), None);
    assert_eq!(SinopacOrderEvent::from_event_name("Submitted"), None);
}

#[test]
fn test_gateway_http_url() {
    assert_eq!(gateway_http_url("http://localhost:8000"), "http://localhost:8000/api");
    assert_eq!(gateway_http_url(""), "/api");
}

#[test]
fn test_gateway_ws_url_schemes() {
    assert_eq!(gateway_ws_url("http://localhost:8123"), "ws://localhost:8123/ws");
    assert_eq!(gateway_ws_url("https://gw.example.com"), "wss://gw.example.com/ws");
    assert_eq!(gateway_ws_url("ws://already"), "ws://already/ws");
    assert_eq!(gateway_ws_url("httpx://h"), "httpx://h/ws");
}

#[test]
fn test_resolve_ws_url() {
    assert_eq!(resolve_ws_url(None), "ws://localhost:8000/ws");
    assert_eq!(resolve_ws_url(Some("ws://h:1/ws")), "ws://h:1/ws");
}

#[test]
fn test_parse_instrument_id() {
    assert_eq!(instrument_id_text("2330"), "2330.SINOPAC");
}

#[test]
fn test_parse_instrument_id_futures() {
    assert_eq!(instrument_id_text("TXFC6"), "TXFC6.SINOPAC");
}

#[test]
fn test_parse_order_side_buy() {
    assert_eq!(parse_order_side("Buy"), Some(SinopacAction::Buy));
}

#[test]
fn test_parse_order_side_sell() {
    assert_eq!(parse_order_side("Sell"), Some(SinopacAction::Sell));
}

#[test]
fn test_parse_order_side_unknown() {
    assert_eq!(parse_order_side("Unknown"), None);
    assert_eq!(parse_order_side("buy"), None);
}

#[test]
fn test_str_equals() {
    assert!(str_equals("abc", "abc"));
    assert!(!str_equals("abc", "abd"));
    assert!(!str_equals("abc", "ab"));
    assert!(str_equals("", ""));
}

#[test]
fn test_taiwan_naive_to_unix_nanos_rejects_pre_epoch() {
    // 1960-01-01 00:00:00 as wall-clock seconds.
    let dt = LocalDateTime { secs: -315_619_200, nanos: 0 };
    assert_eq!(taiwan_naive_to_unix_nanos(dt), Err(TimeError::BeforeEpoch));
}

#[test]
fn test_taiwan_naive_to_unix_nanos_shifts_eight_hours() {
    // 2026-03-02 00:00:00 Taiwan = 2026-03-01 16:00:00 UTC.
    let dt = LocalDateTime { secs: 1_772_409_600, nanos: 5 };
    assert_eq!(taiwan_naive_to_unix_nanos(dt), Ok(1_772_380_800_000_000_005));
    // Within the first eight hours of the epoch the instant is before it.
    let dt = LocalDateTime { secs: 28_799, nanos: 999_999_999 };
    assert_eq!(taiwan_naive_to_unix_nanos(dt), Err(TimeError::BeforeEpoch));
    let dt = LocalDateTime { secs: 28_800, nanos: 0 };
    assert_eq!(taiwan_naive_to_unix_nanos(dt), Ok(0));
}

#[test]
fn test_taiwan_naive_to_unix_nanos_overflow() {
    let dt = LocalDateTime { secs: i64::MAX, nanos: 0 };
    assert_eq!(taiwan_naive_to_unix_nanos(dt), Err(TimeError::Overflow));
    // The last representable nanosecond, seen from Taiwan.
    let dt = LocalDateTime { secs: 9_223_372_036 + 28_800, nanos: 854_775_807 };
    assert_eq!(taiwan_naive_to_unix_nanos(dt), Ok(i64::MAX as u64));
    let dt = LocalDateTime { secs: 9_223_372_036 + 28_800, nanos: 854_775_808 };
    assert_eq!(taiwan_naive_to_unix_nanos(dt), Err(TimeError::Overflow));
}

#[test]
fn test_u64_to_decimal() {
    assert_eq!(u64_to_decimal(0), "0");
    assert_eq!(u64_to_decimal(7), "7");
    assert_eq!(u64_to_decimal(1_709_352_601_000), "1709352601000");
    assert_eq!(u64_to_decimal(u64::MAX), "18446744073709551615");
}

#[test]
fn test_twse_tick_size_under_10() {
    assert_eq!(twse_stock_tick_size(5), tick(1, 2));
}

#[test]
fn test_twse_tick_size_10_to_50() {
    assert_eq!(twse_stock_tick_size(25), tick(5, 2));
}

#[test]
fn test_twse_tick_size_50_to_100() {
    assert_eq!(twse_stock_tick_size(75), tick(10, 2));
}

#[test]
fn test_twse_tick_size_100_to_500() {
    assert_eq!(twse_stock_tick_size(300), tick(50, 2));
}

#[test]
fn test_twse_tick_size_500_to_1000() {
    assert_eq!(twse_stock_tick_size(750), tick(10, 1));
}

#[test]
fn test_twse_tick_size_above_1000() {
    assert_eq!(twse_stock_tick_size(1500), tick(50, 1));
}

#[test]
fn test_twse_tick_size_boundary_at_10() {
    assert_eq!(twse_stock_tick_size(10), tick(5, 2));
    assert_eq!(twse_stock_tick_size(9), tick(1, 2));
}

#[test]
fn test_twse_tick_size_tsmc_reference() {
    assert_eq!(twse_stock_tick_size(580), tick(10, 1));
}

#[test]
fn test_twse_tick_size_unordered_reference_is_top_tier() {
    // An unordered reference price compares below no boundary.
    assert_eq!(twse_stock_tick_size(i64::MAX), tick(50, 1));
    assert_eq!(twse_stock_tick_size(i64::MIN), tick(1, 2));
}

#[test]
fn test_etf_tick_size_below_50() {
    // 36.67 TWD.
    assert_eq!(twse_etf_tick_size(36), tick(1, 2));
}

#[test]
fn test_etf_tick_size_at_or_above_50() {
    // 104.15 TWD and the 50 TWD boundary.
    assert_eq!(twse_etf_tick_size(104), tick(5, 2));
    assert_eq!(twse_etf_tick_size(50), tick(5, 2));
}

#[test]
fn test_etf_vs_stock_tick_diverge() {
    assert_ne!(twse_etf_tick_size(104), twse_stock_tick_size(104));
    assert_eq!(twse_etf_tick_size(104), tick(5, 2));
    assert_eq!(twse_stock_tick_size(104), tick(50, 2));
}

#[test]
fn test_stock_category_00_uses_etf_tick() {
    assert_eq!(stock_tick_for_contract("00", 103), tick(5, 2));
    assert_eq!(stock_tick_for_contract("24", 103), tick(50, 2));
    assert_eq!(stock_tick_for_contract("24", 580), tick(10, 1));
    assert_eq!(stock_tick_for_contract("00", 49), tick(1, 2));
}

#[test]
fn test_index_futures_tick_size_txf() {
    assert_eq!(index_futures_tick_size("TXF"), Some(tick(1, 0)));
    assert_eq!(index_futures_tick_size("MXF"), Some(tick(1, 0)));
    assert_eq!(index_futures_tick_size("T5F"), Some(tick(1, 0)));
    assert_eq!(index_futures_tick_size("XIF"), Some(tick(1, 0)));
}

#[test]
fn test_index_futures_tick_size_sector() {
    assert_eq!(index_futures_tick_size("ZEF"), Some(tick(5, 2)));
    assert_eq!(index_futures_tick_size("ZFF"), Some(tick(2, 1)));
}

#[test]
fn test_index_futures_tick_size_unknown_root_is_none() {
    assert_eq!(index_futures_tick_size("ZZZ"), None);
}

#[test]
fn test_single_stock_futures_tick_size_tiers() {
    let cases: [(i64, TickSize); 13] = [
        (8, tick(1, 2)),
        (9, tick(1, 2)),
        (10, tick(5, 2)),
        (49, tick(5, 2)),
        (50, tick(10, 2)),
        (99, tick(10, 2)),
        (100, tick(50, 2)),
        (499, tick(50, 2)),
        (500, tick(10, 1)),
        (999, tick(10, 1)),
        (1000, tick(50, 1)),
        (2260, tick(50, 1)),
        (31, tick(5, 2)),
    ];
    for (reference, expected) in cases {
        assert_eq!(single_stock_futures_tick_size(reference), expected);
    }
}

#[test]
fn test_options_tick_size_low_premium() {
    assert_eq!(options_tick_size(5), tick(1, 1));
}

#[test]
fn test_options_tick_size_high_premium() {
    assert_eq!(options_tick_size(50), tick(1, 0));
    assert_eq!(options_tick_size(10), tick(1, 0));
}

#[test]
fn test_futures_tick_for_contract_routes_by_underlying_kind() {
    // Index root from the table.
    assert_eq!(futures_tick_for_contract("I", "TXF", 43_367), tick(1, 0));
    assert_eq!(futures_tick_for_contract("I", "ZEF", 1000), tick(5, 2));
    assert_eq!(futures_tick_for_contract("I", "ZFF", 1500), tick(2, 1));
    // Unknown index root falls back.
    assert_eq!(futures_tick_for_contract("I", "ZZZ", 43_367), tick(1, 0));
    // Common-stock underlying: stock tiers.
    assert_eq!(futures_tick_for_contract("S", "CDF", 2260), tick(50, 1));
    assert_eq!(futures_tick_for_contract("S", "CDF", 31), tick(5, 2));
    // ETF underlying: ETF grid, not the stock tiers.
    assert_eq!(futures_tick_for_contract("E", "CDF", 103), tick(5, 2));
    assert_eq!(futures_tick_for_contract("E", "CDF", 49), tick(1, 2));
    assert_eq!(futures_tick_for_contract("E", "CDF", 50), tick(5, 2));
    // Commodity and unknown kinds fall back.
    assert_eq!(futures_tick_for_contract("C", "GDF", 5000), tick(1, 0));
    assert_eq!(futures_tick_for_contract("", "TXF", 5000), tick(1, 0));
}

#[test]
fn test_futures_multiplier_table() {
    assert_eq!(futures_multiplier("TXF"), Some(200));
    assert_eq!(futures_multiplier("MXF"), Some(50));
    assert_eq!(futures_multiplier("XIF"), Some(100));
    assert_eq!(futures_multiplier("ZEF"), Some(500));
    assert_eq!(futures_multiplier("ZFF"), Some(250));
    assert_eq!(futures_multiplier("CDF"), None);
    assert_eq!(options_multiplier("TXO"), Some(50));
    assert_eq!(options_multiplier("CAO"), None);
}

#[test]
fn test_futures_uses_authoritative_multiplier() {
    assert_eq!(resolve_multiplier(777, futures_multiplier("TXF")), 777);
    assert_eq!(resolve_multiplier(99, options_multiplier("TXO")), 99);
}

#[test]
fn test_futures_multiplier_zero_falls_back_to_table() {
    assert_eq!(resolve_multiplier(0, futures_multiplier("TXF")), 200);
    assert_eq!(resolve_multiplier(0, options_multiplier("TXO")), 50);
    assert_eq!(resolve_multiplier(-3, futures_multiplier("ZFF")), 250);
}

#[test]
fn test_unknown_root_multiplier_falls_back_to_default() {
    assert_eq!(resolve_multiplier(0, futures_multiplier("CDF")), DEFAULT_CONTRACT_MULTIPLIER);
    assert_eq!(DEFAULT_CONTRACT_MULTIPLIER, 2000);
}

#[test]
fn test_sector_tick_values() {
    // Tick value = tick size x multiplier, in hundredths of TWD.
    let zef = index_futures_tick_size("ZEF").unwrap();
    assert_eq!(zef.units as u64 * futures_multiplier("ZEF").unwrap(), 2500); // 0.05 x 500 = 25
    let zff = index_futures_tick_size("ZFF").unwrap();
    assert_eq!(zff.units as u64 * 10 * futures_multiplier("ZFF").unwrap(), 5000); // 0.2 x 250 = 50
    let xif = index_futures_tick_size("XIF").unwrap();
    assert_eq!(xif.units as u64 * futures_multiplier("XIF").unwrap(), 100); // 1.0 x 100
}

#[test]
fn test_resolve_underlying() {
    assert_eq!(resolve_underlying("", "TXF"), "TXF");
    assert_eq!(resolve_underlying("2330", "CDF"), "2330");
    assert_eq!(resolve_underlying("TXO", "TXO"), "TXO");
}

#[test]
fn test_underlying_is_index() {
    assert!(underlying_is_index("I"));
    assert!(!underlying_is_index("S"));
    assert!(!underlying_is_index("E"));
    assert!(!underlying_is_index(""));
}

#[test]
fn test_option_right_c_parses_call() {
    assert_eq!(parse_option_right("C"), Some(OptionRight::Call));
}

#[test]
fn test_option_right_p_parses_put() {
    assert_eq!(parse_option_right("P"), Some(OptionRight::Put));
}

#[test]
fn test_option_right_unknown_bails() {
    assert_eq!(parse_option_right("X"), None);
    assert_eq!(parse_option_right("Call"), None);
}

#[test]
fn test_aggressor_from_tick_type() {
    assert_eq!(aggressor_from_tick_type(Some(1)), TickAggressor::Buyer);
    assert_eq!(aggressor_from_tick_type(Some(2)), TickAggressor::Seller);
    assert_eq!(aggressor_from_tick_type(Some(0)), TickAggressor::NoAggressor);
    assert_eq!(aggressor_from_tick_type(None), TickAggressor::NoAggressor);
}
