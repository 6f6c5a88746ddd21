use sinopac_nt::common::enums::SinopacQuoteType;
use sinopac_nt::common::parse::TimeError;
use sinopac_nt::websocket::book::{
    check_top_of_book, delta_levels, depth_levels, select_levels, BookError, DEPTH10_LEN,
};
use sinopac_nt::websocket::emit::{
    bidask_output_flags, emits_deltas, emits_depth, emits_quote, BidAskEmitFlags,
    BIDASK_EMIT_DELTAS, BIDASK_EMIT_DEPTH, BIDASK_EMIT_QUOTE,
};
use sinopac_nt::websocket::dispatch::{plan_bidask, plan_tick, MarketOutput, MarketPlan, SkipReason};
use sinopac_nt::websocket::feed::{Delivery, FeedCommand, FeedState, FrameEvent};
use sinopac_nt::websocket::parse::{parse_taiwan_timestamp, ws_trade_id};

// The five-level snapshot of the `ws_bidask` fixture: bids 580..576, asks 581..585.
const BID_VOLS: [i64; 5] = [120, 30, 45, 60, 10];
const ASK_VOLS: [i64; 5] = [85, 40, 20, 15, 5];
// The partly empty snapshot: two live levels per side.
const ZERO_BID_VOLS: [i64; 5] = [3, 7, 0, 0, 0];
const ZERO_ASK_VOLS: [i64; 5] = [4, 2, 0, 0, 0];
const ALL_ZERO_VOLS: [i64; 5] = [0, 0, 0, 0, 0];

#[test]
fn test_parse_taiwan_timestamp_with_microseconds() {
    let ts = parse_taiwan_timestamp("2026-03-02 09:30:00.123456").unwrap();
    assert_eq!(ts, 1_772_415_000_123_456_000);
}

#[test]
fn test_parse_taiwan_timestamp_without_fractional() {
    let ts = parse_taiwan_timestamp("2026-03-02 09:30:00").unwrap();
    assert_eq!(ts, 1_772_415_000_000_000_000);
}

#[test]
fn test_parse_taiwan_timestamp_utc_offset() {
    // 2026-03-02 00:00:00 Taiwan = 2026-03-01 16:00:00 UTC
    assert_eq!(parse_taiwan_timestamp("2026-03-02 00:00:00"), Ok(1_772_380_800_000_000_000));
}

#[test]
fn test_parse_taiwan_timestamp_rejects() {
    assert_eq!(parse_taiwan_timestamp("2026-03-02"), Err(TimeError::InvalidFormat));
    assert_eq!(parse_taiwan_timestamp("not a time"), Err(TimeError::InvalidFormat));
    assert_eq!(parse_taiwan_timestamp("1969-12-31 23:00:00"), Err(TimeError::BeforeEpoch));
}

#[test]
fn test_ws_trade_id() {
    assert_eq!(ws_trade_id("2330", "2026-03-02 09:30:00.123456"), "2330-2026-03-02 09:30:00.123456");
}

#[test]
fn test_parse_ws_bidask_top_of_book() {
    assert_eq!(check_top_of_book(5, &BID_VOLS, 5, &ASK_VOLS), Ok(()));
}

#[test]
fn test_parse_ws_bidask_zeros_quote_tick_valid_top() {
    assert_eq!(check_top_of_book(5, &ZERO_BID_VOLS, 5, &ZERO_ASK_VOLS), Ok(()));
}

#[test]
fn test_parse_ws_bidask_all_zeros_quote_tick_bails() {
    assert_eq!(check_top_of_book(5, &ALL_ZERO_VOLS, 5, &ALL_ZERO_VOLS), Err(BookError::NoTopOfBook));
    assert_eq!(check_top_of_book(5, &BID_VOLS, 5, &[0, 5, 5, 5, 5]), Err(BookError::NoTopOfBook));
}

#[test]
fn test_parse_ws_bidask_empty_volume_array_errors_not_panics() {
    assert_eq!(check_top_of_book(1, &[], 5, &ASK_VOLS), Err(BookError::EmptyLevels));
    assert_eq!(check_top_of_book(0, &BID_VOLS, 5, &ASK_VOLS), Err(BookError::EmptyLevels));
}

#[test]
fn test_parse_ws_bidask_to_depth10() {
    let (bids, asks) = depth_levels(5, &BID_VOLS, 5, &ASK_VOLS).unwrap();
    assert_eq!(bids, vec![0, 1, 2, 3, 4]);
    assert_eq!(asks, vec![0, 1, 2, 3, 4]);
}

#[test]
fn test_parse_ws_bidask_zeros_depth10_skips_zero_levels() {
    let (bids, asks) = depth_levels(5, &ZERO_BID_VOLS, 5, &ZERO_ASK_VOLS).unwrap();
    assert_eq!(bids, vec![0, 1]);
    assert_eq!(asks, vec![0, 1]);
}

#[test]
fn test_parse_ws_bidask_all_zeros_depth10_bails() {
    assert_eq!(depth_levels(5, &ALL_ZERO_VOLS, 5, &ALL_ZERO_VOLS), Err(BookError::NoValidLevels));
    assert_eq!(depth_levels(0, &BID_VOLS, 5, &ASK_VOLS), Err(BookError::EmptyLevels));
}

#[test]
fn test_depth10_caps_each_side() {
    let vols: Vec<i64> = (1..=15).collect();
    let (bids, asks) = depth_levels(15, &vols, 3, &[4, 0, 6]).unwrap();
    assert_eq!(bids.len(), DEPTH10_LEN);
    assert_eq!(bids, (0..10).collect::<Vec<usize>>());
    assert_eq!(asks, vec![0, 2]);
}

#[test]
fn test_parse_ws_bidask_to_deltas() {
    let (bids, asks) = delta_levels(5, &BID_VOLS, 5, &ASK_VOLS).unwrap();
    // 1 CLEAR + 5 bids + 5 asks = 11
    assert_eq!(1 + bids.len() + asks.len(), 11);
}

#[test]
fn test_parse_ws_bidask_zeros_deltas_skips_zero_levels() {
    let (bids, asks) = delta_levels(5, &ZERO_BID_VOLS, 5, &ZERO_ASK_VOLS).unwrap();
    assert_eq!(1 + bids.len() + asks.len(), 5);
}

#[test]
fn test_parse_ws_bidask_all_zeros_deltas_clear_only() {
    let (bids, asks) = delta_levels(5, &ALL_ZERO_VOLS, 5, &ALL_ZERO_VOLS).unwrap();
    assert!(bids.is_empty() && asks.is_empty());
    assert_eq!(delta_levels(5, &BID_VOLS, 0, &ASK_VOLS), Err(BookError::EmptyLevels));
}

#[test]
fn test_deltas_keep_every_level() {
    let vols: Vec<i64> = vec![1; 15];
    let (bids, _) = delta_levels(15, &vols, 15, &vols).unwrap();
    assert_eq!(bids.len(), 15);
}

#[test]
fn test_select_levels_skips_non_positive() {
    assert_eq!(select_levels(6, &[5, -1, 0, 2, 3, 0], 10), vec![0, 3, 4]);
    assert_eq!(select_levels(6, &[5, -1, 0, 2, 3, 0], 2), vec![0, 3]);
    assert_eq!(select_levels(2, &[5, -1, 0, 2, 3, 0], 10), vec![0]);
    assert_eq!(select_levels(6, &[], 10), Vec::<usize>::new());
}

#[test]
fn test_bidask_output_flags() {
    assert_eq!(bidask_output_flags(false, false, false), 0);
    assert_eq!(bidask_output_flags(true, false, false), BIDASK_EMIT_QUOTE);
    assert_eq!(bidask_output_flags(false, true, false), BIDASK_EMIT_DEPTH);
    assert_eq!(bidask_output_flags(false, false, true), BIDASK_EMIT_DELTAS);
    let all = bidask_output_flags(true, true, true);
    assert_eq!(all, 7);
    assert!(emits_quote(all) && emits_depth(all) && emits_deltas(all));
    let some = bidask_output_flags(true, false, true);
    assert!(emits_quote(some) && !emits_depth(some) && emits_deltas(some));
}

#[test]
fn test_bidask_emit_registry() {
    let mut flags = BidAskEmitFlags::new();
    assert_eq!(flags.bidask_emit_for("2330"), 0);
    flags.set_bidask_emit_for("2330", 3);
    flags.set_bidask_emit_for("2317", 4);
    assert_eq!(flags.bidask_emit_for("2330"), 3);
    assert_eq!(flags.bidask_emit_for("2317"), 4);
    flags.set_bidask_emit_for("2330", 1);
    assert_eq!(flags.bidask_emit_for("2330"), 1);
    flags.set_bidask_emit_for("2330", 0);
    assert_eq!(flags.bidask_emit_for("2330"), 0);
    assert_eq!(flags.bidask_emit_for("2317"), 4);
}

fn subscribe(code: &str, quote_type: SinopacQuoteType) -> FeedCommand {
    FeedCommand::Subscribe { code: code.to_string(), quote_type }
}

#[test]
fn test_feed_tracks_subscriptions_without_client() {
    let mut state = FeedState::new();
    let out = state.on_command(subscribe("2330", SinopacQuoteType::Tick));
    assert!(out.send.is_none());
    assert!(!out.stop);
    assert_eq!(state.subscription_count(), 1);
    // Subscribing twice tracks it once.
    state.on_command(subscribe("2330", SinopacQuoteType::Tick));
    assert_eq!(state.subscription_count(), 1);
}

#[test]
fn test_feed_sends_subscribe_with_client() {
    let mut state = FeedState::new();
    assert!(!state.on_command(FeedCommand::AttachClient).stop);
    assert!(state.is_connected());
    let out = state.on_command(subscribe("2330", SinopacQuoteType::BidAsk));
    let msg = out.send.expect("subscribe is sent while connected");
    assert_eq!(msg.action, "subscribe");
    assert_eq!(msg.contract_code, "2330");
    assert_eq!(msg.quote_type, SinopacQuoteType::BidAsk);
    let out = state.on_command(FeedCommand::Unsubscribe {
        code: "2330".to_string(),
        quote_type: SinopacQuoteType::BidAsk,
    });
    let msg = out.send.expect("unsubscribe is sent while connected");
    assert_eq!(msg.action, "unsubscribe");
    assert_eq!(state.subscription_count(), 0);
}

#[test]
fn test_feed_resubscribes_before_sentinel() {
    let mut state = FeedState::new();
    state.on_command(FeedCommand::AttachClient);
    state.on_command(subscribe("2330", SinopacQuoteType::Tick));
    state.on_command(subscribe("2330", SinopacQuoteType::BidAsk));
    state.on_command(subscribe("2317", SinopacQuoteType::Tick));
    state.on_command(FeedCommand::Unsubscribe {
        code: "2317".to_string(),
        quote_type: SinopacQuoteType::Tick,
    });
    let out = state.on_frame::<u32>(FrameEvent::Reconnected);
    assert!(matches!(out.delivery, Delivery::Reconnected));
    assert_eq!(out.sends.len(), 2);
    assert!(out.sends.iter().all(|m| m.action == "subscribe" && m.contract_code == "2330"));
    assert_eq!(out.sends[0].quote_type, SinopacQuoteType::Tick);
    assert_eq!(out.sends[1].quote_type, SinopacQuoteType::BidAsk);
}

#[test]
fn test_reconnect_without_client_sends_nothing() {
    let mut state = FeedState::new();
    state.on_command(subscribe("2330", SinopacQuoteType::Tick));
    let out = state.on_frame::<u32>(FrameEvent::Reconnected);
    assert!(out.sends.is_empty());
    assert!(matches!(out.delivery, Delivery::Reconnected));
}

#[test]
fn test_feed_skips_poison_frame() {
    let mut state = FeedState::new();
    state.on_command(FeedCommand::AttachClient);
    state.on_command(subscribe("2330", SinopacQuoteType::Tick));
    let out = state.on_frame::<u32>(FrameEvent::Unparseable);
    assert!(out.sends.is_empty());
    assert!(matches!(out.delivery, Delivery::Continue));
    let out = state.on_frame(FrameEvent::Parsed(580u32));
    assert!(matches!(out.delivery, Delivery::Message(580)));
    assert_eq!(state.subscription_count(), 1);
}

#[test]
fn test_feed_stops_on_close_and_disconnect() {
    let mut state = FeedState::new();
    state.on_command(FeedCommand::AttachClient);
    assert!(matches!(state.on_frame::<u32>(FrameEvent::Close).delivery, Delivery::Stop));
    assert!(matches!(state.on_frame::<u32>(FrameEvent::StreamEnded).delivery, Delivery::Stop));
    assert!(matches!(state.on_frame::<u32>(FrameEvent::Other).delivery, Delivery::Continue));
    let out = state.on_command(FeedCommand::Disconnect);
    assert!(out.stop && out.send.is_none());
    assert!(!state.is_connected());
}

fn emitted(plan: MarketPlan) -> (u64, Vec<MarketOutput>) {
    match plan {
        MarketPlan::Emit { ts_event, outputs } => (ts_event, outputs),
        MarketPlan::Skip(reason) => panic!("expected outputs, got {reason:?}"),
    }
}

fn skipped(plan: MarketPlan) -> SkipReason {
    match plan {
        MarketPlan::Skip(reason) => reason,
        MarketPlan::Emit { outputs, .. } => panic!("expected a skip, got {outputs:?}"),
    }
}

#[test]
fn test_plan_tick() {
    let (ts, outputs) = emitted(plan_tick(true, "2026-03-02 09:30:00.123456"));
    assert_eq!(ts, 1_772_415_000_123_456_000);
    assert_eq!(outputs, vec![MarketOutput::Trade]);
    assert_eq!(skipped(plan_tick(false, "2026-03-02 09:30:00")), SkipReason::UnknownInstrument);
    assert_eq!(
        skipped(plan_tick(true, "not a time")),
        SkipReason::BadTimestamp(TimeError::InvalidFormat)
    );
}

#[test]
fn test_plan_bidask_follows_flags() {
    let ts = "2026-03-02 09:30:00";
    let all = bidask_output_flags(true, true, true);
    let (t, outputs) = emitted(plan_bidask(true, ts, all));
    assert_eq!(t, 1_772_415_000_000_000_000);
    assert_eq!(outputs, vec![MarketOutput::Quote, MarketOutput::Depth10, MarketOutput::Deltas]);

    let (_, outputs) = emitted(plan_bidask(true, ts, bidask_output_flags(false, true, true)));
    assert_eq!(outputs, vec![MarketOutput::Depth10, MarketOutput::Deltas]);
    let (_, outputs) = emitted(plan_bidask(true, ts, BIDASK_EMIT_QUOTE));
    assert_eq!(outputs, vec![MarketOutput::Quote]);

    assert_eq!(skipped(plan_bidask(true, ts, 0)), SkipReason::NothingSelected);
    assert_eq!(skipped(plan_bidask(true, ts, 8)), SkipReason::NothingSelected);
}

#[test]
fn test_plan_bidask_check_order() {
    // An unknown instrument is reported before a bad timestamp, and a bad
    // timestamp before empty flags.
    assert_eq!(skipped(plan_bidask(false, "bad", 0)), SkipReason::UnknownInstrument);
    assert_eq!(
        skipped(plan_bidask(true, "bad", 0)),
        SkipReason::BadTimestamp(TimeError::InvalidFormat)
    );
}

#[test]
fn test_unequal_bidask_arrays_are_refused() {
    // Two bid prices with one bid volume.
    assert_eq!(depth_levels(2, &[120], 5, &ASK_VOLS), Err(BookError::LengthMismatch));
    assert_eq!(delta_levels(2, &[120], 1, &[85]), Err(BookError::LengthMismatch));
    assert_eq!(check_top_of_book(2, &[120], 1, &[85]), Err(BookError::LengthMismatch));
    assert_eq!(delta_levels(5, &BID_VOLS, 4, &ASK_VOLS), Err(BookError::LengthMismatch));
    // An empty array is reported before the mismatch.
    assert_eq!(check_top_of_book(1, &[], 5, &ASK_VOLS), Err(BookError::EmptyLevels));
    assert_eq!(depth_levels(0, &[1], 5, &ASK_VOLS), Err(BookError::EmptyLevels));
}
