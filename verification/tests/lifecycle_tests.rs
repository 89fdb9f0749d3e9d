use perp_cycle::lifecycle::CycleStage;
use perp_cycle::lifecycle::FillStatus;
use perp_cycle::lifecycle::Phase;
use perp_cycle::lifecycle::PhaseAction;
use perp_cycle::lifecycle::PhaseEvent;
use perp_cycle::lifecycle::PhaseState;
use perp_cycle::lifecycle::StrategyConfig;
use perp_cycle::lifecycle::find_short_position;
use perp_cycle::lifecycle::next_stage;
use perp_cycle::lifecycle::phase_start;
use perp_cycle::lifecycle::stage_phase;
use perp_cycle::lifecycle::step;
use perp_cycle::models::BookTickerData;
use perp_cycle::models::BotError;
use perp_cycle::models::OrderResponse;
use perp_cycle::models::OrderUpdateData;
use perp_cycle::models::PositionResponse;

fn cfg() -> StrategyConfig {
    StrategyConfig::default()
}

fn ticker(ask: &str, bid: &str) -> BookTickerData {
    BookTickerData {
        event_type: "bookTicker".to_string(),
        event_time: 1,
        symbol: "APT_USDC_PERP".to_string(),
        best_ask_price: ask.to_string(),
        best_ask_qty: "1".to_string(),
        best_bid_price: bid.to_string(),
        best_bid_qty: "1".to_string(),
        engine_timestamp: 1,
    }
}

fn response(id: &str, status: &str) -> OrderResponse {
    OrderResponse {
        id: id.to_string(),
        status: status.to_string(),
        symbol: "APT_USDC_PERP".to_string(),
        side: "Ask".to_string(),
        quantity: "100.0".to_string(),
        executed_quantity: "0".to_string(),
    }
}

fn update(id: &str, status: &str) -> OrderUpdateData {
    OrderUpdateData {
        event_type: "orderFill".to_string(),
        symbol: "APT_USDC_PERP".to_string(),
        order_id: id.to_string(),
        order_status: status.to_string(),
        fill_quantity: None,
        executed_quantity: None,
    }
}

fn position(symbol: &str, side: &str, qty: &str) -> PositionResponse {
    PositionResponse {
        symbol: symbol.to_string(),
        side: side.to_string(),
        quantity: qty.to_string(),
    }
}

#[test]
fn phase_start_states() {
    let c = cfg();
    let (s, a) = phase_start(&c, Phase::Open);
    assert!(matches!(s, PhaseState::AwaitingPrice(q) if q == "100.0"));
    assert!(matches!(a, PhaseAction::WaitPrice));
    let (s, a) = phase_start(&c, Phase::Close);
    assert!(matches!(s, PhaseState::AwaitingQty));
    assert!(matches!(a, PhaseAction::QueryPositions));
}

#[test]
fn open_price_places_ask_post_only() {
    let c = cfg();
    let (s, a) = step(
        &c,
        Phase::Open,
        PhaseState::AwaitingPrice("100.0".to_string()),
        PhaseEvent::Price(ticker("3.19", "3.18")),
    );
    assert!(matches!(s, PhaseState::AwaitingPlacement(q) if q == "100.0"));
    match a {
        PhaseAction::Place(req) => {
            assert_eq!(req.symbol, "APT_USDC_PERP");
            assert_eq!(req.side, "Ask");
            assert_eq!(req.order_type, "Limit");
            assert_eq!(req.quantity, "100.0");
            assert_eq!(req.price, "3.19");
            assert!(req.post_only);
            assert_eq!(req.reduce_only, None);
        }
        _ => panic!("expected a placement"),
    }
}

#[test]
fn close_price_places_bid_reduce_only() {
    let c = cfg();
    let (_, a) = step(
        &c,
        Phase::Close,
        PhaseState::AwaitingPrice("55.5".to_string()),
        PhaseEvent::Price(ticker("3.19", "3.18")),
    );
    match a {
        PhaseAction::Place(req) => {
            assert_eq!(req.side, "Bid");
            assert_eq!(req.price, "3.18");
            assert_eq!(req.quantity, "55.5");
            assert_eq!(req.reduce_only, Some(true));
        }
        _ => panic!("expected a placement"),
    }
}

#[test]
fn scenario_immediate_fill() {
    // Placement response already Filled: success with no waiting.
    let c = cfg();
    let (s, a) = step(
        &c,
        Phase::Open,
        PhaseState::AwaitingPlacement("100.0".to_string()),
        PhaseEvent::Placement(Ok(response("oid-1", "Filled"))),
    );
    assert!(matches!(s, PhaseState::Complete));
    assert!(matches!(a, PhaseAction::Finish));
}

#[test]
fn scenario_open_timeout_then_retry() {
    // Placement pending, a foreign event is ignored, the timer fires on a
    // still-pending order, the cancel completes, and the attempt restarts
    // with a fresh price fetch.
    let c = cfg();
    let (s, a) = step(
        &c,
        Phase::Open,
        PhaseState::AwaitingPlacement("100.0".to_string()),
        PhaseEvent::Placement(Ok(response("oid-1", "New"))),
    );
    assert!(matches!(&s, PhaseState::Watching(id, FillStatus::Pending) if id == "oid-1"));
    assert!(matches!(a, PhaseAction::AwaitEventOrTimeout));

    let (s, a) = step(&c, Phase::Open, s, PhaseEvent::Order(update("other", "Filled")));
    assert!(matches!(&s, PhaseState::Watching(id, FillStatus::Pending) if id == "oid-1"));
    assert!(matches!(a, PhaseAction::KeepWaiting));

    let (s, a) = step(&c, Phase::Open, s, PhaseEvent::TimerElapsed);
    assert!(matches!(&s, PhaseState::CancellingThenRetry(id) if id == "oid-1"));
    assert!(matches!(&a, PhaseAction::Cancel(id) if id == "oid-1"));

    let (s, a) = step(&c, Phase::Open, s, PhaseEvent::CancelFinished(None));
    assert!(matches!(&s, PhaseState::AwaitingPrice(q) if q == "100.0"));
    assert!(matches!(a, PhaseAction::WaitPrice));
}

#[test]
fn scenario_close_partial_then_flat() {
    // A matching partial fill is recorded; the timeout cancels the
    // remainder (a failed cancel is tolerated); the position query shows
    // no remaining short; the phase completes without another retry.
    let c = cfg();
    let s = PhaseState::Watching("oid-9".to_string(), FillStatus::Pending);
    let (s, a) = step(&c, Phase::Close, s, PhaseEvent::Order(update("oid-9", "PartiallyFilled")));
    assert!(matches!(&s, PhaseState::Watching(id, FillStatus::PartiallyFilled) if id == "oid-9"));
    assert!(matches!(a, PhaseAction::KeepWaiting));

    let (s, a) = step(&c, Phase::Close, s, PhaseEvent::TimerElapsed);
    assert!(matches!(&s, PhaseState::CancellingThenCheck(id) if id == "oid-9"));
    assert!(matches!(&a, PhaseAction::Cancel(id) if id == "oid-9"));

    let cancel_failure = Some(BotError::StrategyError("Failed to cancel order: gone".to_string()));
    let (s, a) = step(&c, Phase::Close, s, PhaseEvent::CancelFinished(cancel_failure));
    assert!(matches!(s, PhaseState::CheckingPosition));
    assert!(matches!(a, PhaseAction::QueryPositions));

    let flat = vec![position("APT_USDC_PERP", "Ask", "0.000000")];
    let (s, a) = step(&c, Phase::Close, s, PhaseEvent::Positions(Ok(flat)));
    assert!(matches!(s, PhaseState::Complete));
    assert!(matches!(a, PhaseAction::Finish));
}

#[test]
fn scenario_close_check_failure_is_fatal() {
    // A failed reconciliation query aborts the process; nothing is placed
    // afterwards.
    let c = cfg();
    let err = BotError::RestError("connection reset".to_string());
    let (s, a) = step(&c, Phase::Close, PhaseState::CheckingPosition, PhaseEvent::Positions(Err(err)));
    assert!(matches!(&s, PhaseState::Failed(m) if m == "connection reset"));
    assert!(matches!(&a, PhaseAction::Fail(m) if m == "connection reset"));

    let (s, a) = step(&c, Phase::Close, s, PhaseEvent::Price(ticker("1", "1")));
    assert!(matches!(&s, PhaseState::Failed(_)));
    assert!(matches!(&a, PhaseAction::Fail(_)));
}

#[test]
fn close_partial_with_remaining_short_retries() {
    let c = cfg();
    let open = vec![position("APT_USDC_PERP", "Ask", "40.0")];
    let (s, a) = step(&c, Phase::Close, PhaseState::CheckingPosition, PhaseEvent::Positions(Ok(open)));
    assert!(matches!(s, PhaseState::AwaitingQty));
    assert!(matches!(a, PhaseAction::QueryPositions));
}

#[test]
fn close_qty_lookup() {
    let c = cfg();
    // A live short fixes the close quantity.
    let ps = vec![
        position("OTHER", "Ask", "7"),
        position("APT_USDC_PERP", "Bid", "3"),
        position("APT_USDC_PERP", "Ask", "41.5"),
    ];
    let (s, a) = step(&c, Phase::Close, PhaseState::AwaitingQty, PhaseEvent::Positions(Ok(ps)));
    assert!(matches!(&s, PhaseState::AwaitingPrice(q) if q == "41.5"));
    assert!(matches!(a, PhaseAction::WaitPrice));

    // No short anywhere: the close phase is a no-op.
    let none = vec![position("APT_USDC_PERP", "Ask", "0.000000")];
    let (s, a) = step(&c, Phase::Close, PhaseState::AwaitingQty, PhaseEvent::Positions(Ok(none)));
    assert!(matches!(s, PhaseState::Complete));
    assert!(matches!(a, PhaseAction::Finish));

    // A failed pre-placement query falls back to the configured quantity.
    let err = BotError::RestError("boom".to_string());
    let (s, a) = step(&c, Phase::Close, PhaseState::AwaitingQty, PhaseEvent::Positions(Err(err)));
    assert!(matches!(&s, PhaseState::AwaitingPrice(q) if q == "100.0"));
    assert!(matches!(a, PhaseAction::WaitPrice));
}

#[test]
fn preplace_query_failure_can_be_fatal_when_configured() {
    let mut c = cfg();
    c.fallback_qty_on_query_failure = false;
    let err = BotError::RestError("boom".to_string());
    let (s, a) = step(&c, Phase::Close, PhaseState::AwaitingQty, PhaseEvent::Positions(Err(err)));
    assert!(matches!(&s, PhaseState::Failed(m) if m == "boom"));
    assert!(matches!(&a, PhaseAction::Fail(_)));
}

#[test]
fn matching_filled_event_completes() {
    let c = cfg();
    let s = PhaseState::Watching("oid-2".to_string(), FillStatus::Pending);
    let (s, a) = step(&c, Phase::Open, s, PhaseEvent::Order(update("oid-2", "Filled")));
    assert!(matches!(s, PhaseState::Complete));
    assert!(matches!(a, PhaseAction::Finish));
}

#[test]
fn open_partial_at_timeout_accepts_after_cancel() {
    let c = cfg();
    let s = PhaseState::Watching("oid-3".to_string(), FillStatus::PartiallyFilled);
    let (s, a) = step(&c, Phase::Open, s, PhaseEvent::TimerElapsed);
    assert!(matches!(&s, PhaseState::CancellingThenDone(id) if id == "oid-3"));
    assert!(matches!(&a, PhaseAction::Cancel(_)));
    let (s, a) = step(&c, Phase::Open, s, PhaseEvent::CancelFinished(None));
    assert!(matches!(s, PhaseState::Complete));
    assert!(matches!(a, PhaseAction::Finish));
}

#[test]
fn find_short_skips_zero_and_foreign_rows() {
    let ps = vec![
        position("APT_USDC_PERP", "Ask", "0.000000"),
        position("APT_USDC_PERP", "Ask", "12.5"),
    ];
    assert_eq!(find_short_position(&ps, "APT_USDC_PERP"), Some("12.5".to_string()));
    assert_eq!(find_short_position(&ps, "BTC_USDC_PERP"), None);
    let empty: Vec<PositionResponse> = Vec::new();
    assert_eq!(find_short_position(&empty, "APT_USDC_PERP"), None);
}

#[test]
fn cycle_stages_rotate() {
    let s = CycleStage::Opening;
    assert!(matches!(stage_phase(s), Some(Phase::Open)));
    let s = next_stage(s);
    assert!(matches!(stage_phase(s), None));
    let s = next_stage(s);
    assert!(matches!(stage_phase(s), Some(Phase::Close)));
    let s = next_stage(s);
    assert!(matches!(stage_phase(s), None));
    assert!(matches!(next_stage(s), CycleStage::Opening));
}
