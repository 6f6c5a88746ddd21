use sinopac_nt::common::parse::TimeError;
use sinopac_nt::http::error::SinopacHttpError;
use sinopac_nt::http::parse::{
    epoch_millis_to_nanos, normalize_date_separators, parallel_lengths_match, parse_date_to_nanos, rest_trade_id,
};
use sinopac_nt::http::request::{
    check_gateway_status, resolve_http_base_url, GatewayEndpoint, GatewayMethod,
};

#[test]
fn test_parse_date_to_nanos_slash_format() {
    // 2026/06/17 00:00:00 +08:00 = 2026-06-16T16:00:00Z
    assert_eq!(parse_date_to_nanos("2026/06/17"), Ok(1_781_625_600_000_000_000));
}

#[test]
fn test_parse_date_to_nanos_dash_format() {
    assert_eq!(parse_date_to_nanos("2026-03-02"), Ok(1_772_380_800_000_000_000));
}

#[test]
fn test_parse_date_to_nanos_formats_agree() {
    assert_eq!(parse_date_to_nanos("2026/06/10"), parse_date_to_nanos("2026-06-10"));
}

#[test]
fn test_parse_date_to_nanos_rejects_bad_dates() {
    assert_eq!(parse_date_to_nanos("202606"), Err(TimeError::InvalidFormat));
    assert_eq!(parse_date_to_nanos("2026/02/30"), Err(TimeError::InvalidFormat));
    assert_eq!(parse_date_to_nanos(""), Err(TimeError::InvalidFormat));
}

#[test]
fn test_parse_date_to_nanos_rejects_pre_epoch() {
    assert_eq!(parse_date_to_nanos("1960/01/01"), Err(TimeError::BeforeEpoch));
    // Midnight of 1970-01-01 in Taiwan is still eight hours before the epoch.
    assert_eq!(parse_date_to_nanos("1970-01-01"), Err(TimeError::BeforeEpoch));
    assert_eq!(parse_date_to_nanos("1970-01-02"), Ok(57_600_000_000_000));
}

#[test]
fn test_normalize_date_separators() {
    assert_eq!(normalize_date_separators("2026/06/17"), "2026-06-17");
    assert_eq!(normalize_date_separators("2026-06-17"), "2026-06-17");
    assert_eq!(normalize_date_separators("//"), "--");
    assert_eq!(normalize_date_separators(""), "");
}

#[test]
fn test_rest_trade_id() {
    assert_eq!(rest_trade_id("2330", 1_709_352_601_000), "2330-1709352601000");
    assert_eq!(rest_trade_id("TXFC6", 0), "TXFC6-0");
}

#[test]
fn test_parse_ticks_mismatched_lengths_errors() {
    assert!(parallel_lengths_match(&[2, 2, 2, 2]));
    assert!(!parallel_lengths_match(&[2, 1, 2, 2]));
    assert!(!parallel_lengths_match(&[2, 2, 2, 3]));
    assert!(parallel_lengths_match(&[]));
    assert!(parallel_lengths_match(&[0]));
}

#[test]
fn test_resolve_http_base_url() {
    assert_eq!(resolve_http_base_url(None), "http://localhost:8000/api");
    assert_eq!(resolve_http_base_url(Some("http://127.0.0.1:9")), "http://127.0.0.1:9/api");
}

#[test]
fn test_endpoint_routes() {
    let base = "http://h/api";
    assert_eq!(GatewayEndpoint::Login.method(), GatewayMethod::Post);
    assert_eq!(GatewayEndpoint::Login.url(base), "http://h/api/auth/login");
    assert_eq!(GatewayEndpoint::Logout.method(), GatewayMethod::Post);
    assert_eq!(GatewayEndpoint::Logout.path(), "/auth/logout");
    assert_eq!(GatewayEndpoint::Status.method(), GatewayMethod::Get);
    assert_eq!(GatewayEndpoint::Status.path(), "/auth/status");
    assert_eq!(GatewayEndpoint::ListStocks.path(), "/contracts/stocks");
    assert_eq!(
        GatewayEndpoint::GetStock("2330".to_string()).url(base),
        "http://h/api/contracts/stocks/2330"
    );
    assert_eq!(GatewayEndpoint::ListFutures.path(), "/contracts/futures");
    assert_eq!(GatewayEndpoint::ListOptions.path(), "/contracts/options");
    assert_eq!(GatewayEndpoint::Snapshots.path(), "/market/snapshots");
    assert_eq!(GatewayEndpoint::Ticks.path(), "/market/ticks");
    assert_eq!(GatewayEndpoint::KBars.path(), "/market/kbars");
    assert_eq!(GatewayEndpoint::PlaceOrder.method(), GatewayMethod::Post);
    assert_eq!(GatewayEndpoint::PlaceOrder.path(), "/orders/place");
    assert_eq!(GatewayEndpoint::UpdateOrder.method(), GatewayMethod::Put);
    assert_eq!(GatewayEndpoint::UpdateOrder.path(), "/orders/update");
    assert_eq!(GatewayEndpoint::CancelOrder.method(), GatewayMethod::Delete);
    assert_eq!(GatewayEndpoint::CancelOrder.path(), "/orders/cancel");
    assert_eq!(GatewayEndpoint::ListTrades.path(), "/orders/trades");
    assert_eq!(GatewayEndpoint::ListPositions.path(), "/account/positions");
    assert_eq!(GatewayEndpoint::AccountBalance.path(), "/account/balance");
    assert_eq!(GatewayEndpoint::Margin.path(), "/account/margin");
    assert_eq!(GatewayEndpoint::ProfitLoss.path(), "/account/pnl");
}

#[test]
fn test_check_gateway_status() {
    assert!(check_gateway_status(200, b"{}").is_ok());
    assert!(check_gateway_status(399, b"").is_ok());
    match check_gateway_status(422, b"rejected") {
        Err(SinopacHttpError::GatewayError { status, body }) => {
            assert_eq!(status, 422);
            assert_eq!(body, "rejected");
        }
        other => panic!("expected a gateway error, got {other:?}"),
    }
    match check_gateway_status(400, &[0x66, 0xff, 0x6f]) {
        Err(SinopacHttpError::GatewayError { status, body }) => {
            assert_eq!(status, 400);
            assert_eq!(body, "f\u{FFFD}o");
        }
        other => panic!("expected a gateway error, got {other:?}"),
    }
}

#[test]
fn test_check_gateway_status_keeps_utf8_body() {
    match check_gateway_status(500, "台灣".as_bytes()) {
        Err(SinopacHttpError::GatewayError { status, body }) => {
            assert_eq!(status, 500);
            assert_eq!(body, "台灣");
        }
        other => panic!("expected a gateway error, got {other:?}"),
    }
}

use sinopac_nt::common::instrument::OptionRight;
use sinopac_nt::common::tick_size::TickSize;
use sinopac_nt::http::terms::{
    futures_contract_terms, options_contract_terms, DerivativeContractFields, OptionTermsError,
};

fn index_future() -> DerivativeContractFields {
    DerivativeContractFields {
        code: "TXFF6".to_string(),
        category: "TXF".to_string(),
        underlying_kind: "I".to_string(),
        underlying_code: String::new(),
        delivery_date: "2026/06/17".to_string(),
        update_date: "2026/06/10".to_string(),
        reference_level: 43_367,
        multiplier: 0,
    }
}

#[test]
fn test_dump_index_future_uses_root_table_tick_and_multiplier() {
    let t = futures_contract_terms(&index_future(), 7).unwrap();
    assert_eq!(t.instrument_id, "TXFF6.SINOPAC");
    assert_eq!(t.tick, TickSize { units: 1, precision: 0 });
    assert_eq!(t.multiplier, 200);
    assert_eq!(t.underlying, "TXF");
    assert!(t.is_index);
    assert_eq!(t.expiration_ns, 1_781_625_600_000_000_000);
    assert_eq!(t.activation_ns, 1_781_020_800_000_000_000);
}

#[test]
fn test_dump_single_stock_future_uses_price_tiered_tick() {
    let mut c = index_future();
    c.code = "CDFF6".to_string();
    c.category = "CDF".to_string();
    c.underlying_kind = "S".to_string();
    c.underlying_code = "2330".to_string();
    c.reference_level = 2260;
    let t = futures_contract_terms(&c, 0).unwrap();
    assert_eq!(t.tick, TickSize { units: 50, precision: 1 });
    assert_eq!(t.multiplier, 2000);
    assert_eq!(t.underlying, "2330");
    assert!(!t.is_index);
}

#[test]
fn test_futures_bad_update_date_falls_back_to_event_time() {
    let mut c = index_future();
    c.update_date = "".to_string();
    let t = futures_contract_terms(&c, 42).unwrap();
    assert_eq!(t.activation_ns, 42);
}

#[test]
fn test_futures_bad_delivery_date_errors() {
    let mut c = index_future();
    c.delivery_date = "202606".to_string();
    assert!(futures_contract_terms(&c, 0).is_err());
}

#[test]
fn test_parse_options_to_contract_call() {
    let c = DerivativeContractFields {
        code: "TXO20000C6".to_string(),
        category: "TXO".to_string(),
        underlying_kind: "I".to_string(),
        underlying_code: "TXO".to_string(),
        delivery_date: "2026/06/17".to_string(),
        update_date: "2026/06/10".to_string(),
        reference_level: 500,
        multiplier: 50,
    };
    let (t, right) = options_contract_terms(&c, "C", 0).unwrap();
    assert_eq!(right, OptionRight::Call);
    assert_eq!(t.instrument_id, "TXO20000C6.SINOPAC");
    assert_eq!(t.multiplier, 50);
    assert_eq!(t.underlying, "TXO");
    assert_eq!(t.tick, TickSize { units: 1, precision: 0 });
    let mut low = c.clone();
    low.reference_level = 5;
    low.multiplier = 0;
    let (t, right) = options_contract_terms(&low, "P", 0).unwrap();
    assert_eq!(right, OptionRight::Put);
    assert_eq!(t.tick, TickSize { units: 1, precision: 1 });
    assert_eq!(t.multiplier, 50);
    assert_eq!(options_contract_terms(&c, "X", 0).unwrap_err(), OptionTermsError::UnknownOptionRight);
}

#[test]
fn test_epoch_millis_to_nanos() {
    assert_eq!(epoch_millis_to_nanos(1_772_415_000_123), Ok(1_772_415_000_123_000_000));
    assert_eq!(epoch_millis_to_nanos(0), Ok(0));
    assert_eq!(epoch_millis_to_nanos(9_223_372_036_855), Ok(9_223_372_036_855_000_000));
    assert_eq!(epoch_millis_to_nanos(18_446_744_073_709), Ok(18_446_744_073_709_000_000));
    assert_eq!(epoch_millis_to_nanos(18_446_744_073_710), Err(TimeError::Overflow));
}
