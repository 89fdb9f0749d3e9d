//! The order-lifecycle controller and the strategy cycle, as an explicit
//! state machine. Each phase of a cycle (open a short, later close it)
//! places a post-only limit order at the relevant best price, races the
//! order-event broadcast against a fixed timeout, and resolves the outcome:
//! immediate or observed fill ends the phase, a partial fill is cancelled
//! and — in the closing phase — reconciled against live position state, and
//! a still-pending order is cancelled and retried with a fresh price.
//!
//! The driver performs the transport work for each returned action and
//! hands the resulting event back to `step`. When an order event and the
//! timer are ready at the same evaluation, the driver must deliver the
//! event first; `TimerElapsed` means no matching event was ready.

use vstd::prelude::*;
use vstd::string::StringExecFns;

use crate::models::opt_view;
use crate::models::BookTickerData;
use crate::models::BookTickerDataView;
use crate::models::BotError;
use crate::models::BotErrorView;
use crate::models::OrderRequest;
use crate::models::OrderRequestView;
use crate::models::OrderResponse;
use crate::models::OrderResponseView;
use crate::models::OrderUpdateData;
use crate::models::OrderUpdateDataView;
use crate::models::PositionResponse;
use crate::models::PositionResponseView;
use crate::qty::is_nonzero_qty;
use crate::qty::spec_nonzero_qty;
use crate::text::str_eq;

verus! {

/// The two phases of one trade cycle.
#[derive(Clone, Copy)]
pub enum Phase {
    Open,
    Close,
}

/// What has been observed of the outstanding order so far.
#[derive(Clone, Copy)]
pub enum FillStatus {
    Pending,
    PartiallyFilled,
    FullyFilled,
}

/// The trading policy's knobs, explicit rather than compiled in: symbol,
/// order size, per-attempt timeout, the pause between phases, the leverage
/// set at startup, and the two position-query failure policies (fatal
/// during close-phase reconciliation; quantity fallback before placement).
pub struct StrategyConfig {
    pub symbol: String,
    pub quantity: String,
    pub order_timeout_ms: u64,
    pub side_interval_ms: u64,
    pub leverage: String,
    pub fatal_on_reconcile_failure: bool,
    pub fallback_qty_on_query_failure: bool,
}

/// The mathematical content of the configuration.
#[verifier::ext_equal]
pub struct StrategyConfigView {
    pub symbol: Seq<char>,
    pub quantity: Seq<char>,
    pub order_timeout_ms: u64,
    pub side_interval_ms: u64,
    pub leverage: Seq<char>,
    pub fatal_on_reconcile_failure: bool,
    pub fallback_qty_on_query_failure: bool,
}

impl View for StrategyConfig {
    type V = StrategyConfigView;

    open spec fn view(&self) -> StrategyConfigView {
        StrategyConfigView {
            symbol: self.symbol@,
            quantity: self.quantity@,
            order_timeout_ms: self.order_timeout_ms,
            side_interval_ms: self.side_interval_ms,
            leverage: self.leverage@,
            fatal_on_reconcile_failure: self.fatal_on_reconcile_failure,
            fallback_qty_on_query_failure: self.fallback_qty_on_query_failure,
        }
    }
}

impl Default for StrategyConfig {
    /// The default policy: APT_USDC_PERP, fixed size 100.0, 5 s order
    /// timeout, 120 s between phases, leverage 1.0, reconciliation failure
    /// fatal, pre-placement query failure falls back to the fixed size.
    fn default() -> (r: Self)
        ensures
            r@.symbol == "APT_USDC_PERP"@,
            r@.quantity == "100.0"@,
            r@.order_timeout_ms == 5000,
            r@.side_interval_ms == 120000,
            r@.leverage == "1.0"@,
            r@.fatal_on_reconcile_failure,
            r@.fallback_qty_on_query_failure,
    {
        StrategyConfig {
            symbol: String::from_str("APT_USDC_PERP"),
            quantity: String::from_str("100.0"),
            order_timeout_ms: 5000,
            side_interval_ms: 120000,
            leverage: String::from_str("1.0"),
            fatal_on_reconcile_failure: true,
            fallback_qty_on_query_failure: true,
        }
    }
}

impl Clone for StrategyConfig {
    fn clone(&self) -> (r: Self)
        ensures
            r@ == self@,
    {
        StrategyConfig {
            symbol: self.symbol.clone(),
            quantity: self.quantity.clone(),
            order_timeout_ms: self.order_timeout_ms,
            side_interval_ms: self.side_interval_ms,
            leverage: self.leverage.clone(),
            fatal_on_reconcile_failure: self.fatal_on_reconcile_failure,
            fallback_qty_on_query_failure: self.fallback_qty_on_query_failure,
        }
    }
}

/// The controller's state within one phase.
pub enum PhaseState {
    /// Close phase: the pre-placement position query is outstanding.
    AwaitingQty,
    /// The order size is fixed; waiting for a fresh price snapshot.
    AwaitingPrice(String),
    /// The placement call is outstanding.
    AwaitingPlacement(String),
    /// Racing the order-event broadcast against the timeout.
    Watching(String, FillStatus),
    /// Cancelling a partial remainder; the phase then ends (opening).
    CancellingThenDone(String),
    /// Cancelling a pending order; the attempt then restarts.
    CancellingThenRetry(String),
    /// Cancelling a partial remainder; position state then decides (closing).
    CancellingThenCheck(String),
    /// Close phase: the reconciliation position query is outstanding.
    CheckingPosition,
    /// Terminal success of the phase.
    Complete,
    /// Terminal process-level failure.
    Failed(String),
}

/// The view of a controller state.
#[verifier::ext_equal]
pub enum PhaseStateV {
    AwaitingQty,
    AwaitingPrice(Seq<char>),
    AwaitingPlacement(Seq<char>),
    Watching(Seq<char>, FillStatus),
    CancellingThenDone(Seq<char>),
    CancellingThenRetry(Seq<char>),
    CancellingThenCheck(Seq<char>),
    CheckingPosition,
    Complete,
    Failed(Seq<char>),
}

impl View for PhaseState {
    type V = PhaseStateV;

    open spec fn view(&self) -> PhaseStateV {
        match *self {
            PhaseState::AwaitingQty => PhaseStateV::AwaitingQty,
            PhaseState::AwaitingPrice(q) => PhaseStateV::AwaitingPrice(q@),
            PhaseState::AwaitingPlacement(q) => PhaseStateV::AwaitingPlacement(q@),
            PhaseState::Watching(id, f) => PhaseStateV::Watching(id@, f),
            PhaseState::CancellingThenDone(id) => PhaseStateV::CancellingThenDone(id@),
            PhaseState::CancellingThenRetry(id) => PhaseStateV::CancellingThenRetry(id@),
            PhaseState::CancellingThenCheck(id) => PhaseStateV::CancellingThenCheck(id@),
            PhaseState::CheckingPosition => PhaseStateV::CheckingPosition,
            PhaseState::Complete => PhaseStateV::Complete,
            PhaseState::Failed(r) => PhaseStateV::Failed(r@),
        }
    }
}

/// One event handed to the controller by the driver.
pub enum PhaseEvent {
    /// A fresh price snapshot.
    Price(BookTickerData),
    /// The outcome of a position query.
    Positions(Result<Vec<PositionResponse>, BotError>),
    /// The outcome of the placement call.
    Placement(Result<OrderResponse, BotError>),
    /// One event from the order broadcast.
    Order(OrderUpdateData),
    /// The per-attempt timer fired with no matching event ready.
    TimerElapsed,
    /// The cancellation finished; a failure is carried but never fatal.
    CancelFinished(Option<BotError>),
}

/// The view of an event.
#[verifier::ext_equal]
pub enum PhaseEventV {
    Price(BookTickerDataView),
    Positions(Result<Seq<PositionResponseView>, BotErrorView>),
    Placement(Result<OrderResponseView, BotErrorView>),
    Order(OrderUpdateDataView),
    TimerElapsed,
    CancelFinished(Option<BotErrorView>),
}

/// The views of a position list.
pub open spec fn positions_view(ps: Seq<PositionResponse>) -> Seq<PositionResponseView> {
    ps.map_values(|p: PositionResponse| p@)
}

impl View for PhaseEvent {
    type V = PhaseEventV;

    open spec fn view(&self) -> PhaseEventV {
        match *self {
            PhaseEvent::Price(t) => PhaseEventV::Price(t@),
            PhaseEvent::Positions(Ok(ps)) => PhaseEventV::Positions(Ok(positions_view(ps@))),
            PhaseEvent::Positions(Err(e)) => PhaseEventV::Positions(Err(e@)),
            PhaseEvent::Placement(Ok(r)) => PhaseEventV::Placement(Ok(r@)),
            PhaseEvent::Placement(Err(e)) => PhaseEventV::Placement(Err(e@)),
            PhaseEvent::Order(u) => PhaseEventV::Order(u@),
            PhaseEvent::TimerElapsed => PhaseEventV::TimerElapsed,
            PhaseEvent::CancelFinished(None) => PhaseEventV::CancelFinished(None),
            PhaseEvent::CancelFinished(Some(e)) => PhaseEventV::CancelFinished(Some(e@)),
        }
    }
}

/// What the driver must do next.
pub enum PhaseAction {
    /// Block on the price channel for a fresh snapshot.
    WaitPrice,
    /// Query live positions.
    QueryPositions,
    /// Place this order.
    Place(OrderRequest),
    /// Subscribe to the order broadcast and start the attempt timer.
    AwaitEventOrTimeout,
    /// Best-effort cancel of this order id.
    Cancel(String),
    /// The phase succeeded.
    Finish,
    /// Abort the process with this reason.
    Fail(String),
    /// Keep waiting on the current race.
    KeepWaiting,
}

/// The view of an action.
#[verifier::ext_equal]
pub enum PhaseActionV {
    WaitPrice,
    QueryPositions,
    Place(OrderRequestView),
    AwaitEventOrTimeout,
    Cancel(Seq<char>),
    Finish,
    Fail(Seq<char>),
    KeepWaiting,
}

impl View for PhaseAction {
    type V = PhaseActionV;

    open spec fn view(&self) -> PhaseActionV {
        match *self {
            PhaseAction::WaitPrice => PhaseActionV::WaitPrice,
            PhaseAction::QueryPositions => PhaseActionV::QueryPositions,
            PhaseAction::Place(o) => PhaseActionV::Place(o@),
            PhaseAction::AwaitEventOrTimeout => PhaseActionV::AwaitEventOrTimeout,
            PhaseAction::Cancel(id) => PhaseActionV::Cancel(id@),
            PhaseAction::Finish => PhaseActionV::Finish,
            PhaseAction::Fail(r) => PhaseActionV::Fail(r@),
            PhaseAction::KeepWaiting => PhaseActionV::KeepWaiting,
        }
    }
}

/// The first open position of `symbol` on the short side with a nonzero
/// quantity, if any: its reported quantity.
pub open spec fn spec_find_short(ps: Seq<PositionResponseView>, symbol: Seq<char>) -> Option<
    Seq<char>,
>
    decreases ps.len(),
{
    if ps.len() == 0 {
        None
    } else if ps[0].symbol == symbol && ps[0].side == "Ask"@ && spec_nonzero_qty(ps[0].quantity) {
        Some(ps[0].quantity)
    } else {
        spec_find_short(ps.drop_first(), symbol)
    }
}

/// A nonzero short position of `symbol` remains open.
pub open spec fn spec_has_short(ps: Seq<PositionResponseView>, symbol: Seq<char>) -> bool {
    spec_find_short(ps, symbol) is Some
}

/// The order one phase places: post-only limit at the side's best price —
/// ask side, fixed quantity when opening; bid side, reduce-only, live
/// quantity when closing.
pub open spec fn order_view(
    cfg: StrategyConfigView,
    phase: Phase,
    qty: Seq<char>,
    t: BookTickerDataView,
) -> OrderRequestView {
    match phase {
        Phase::Open => OrderRequestView {
            symbol: cfg.symbol,
            side: "Ask"@,
            order_type: "Limit"@,
            quantity: qty,
            price: t.best_ask_price,
            post_only: true,
            reduce_only: None,
        },
        Phase::Close => OrderRequestView {
            symbol: cfg.symbol,
            side: "Bid"@,
            order_type: "Limit"@,
            quantity: qty,
            price: t.best_bid_price,
            post_only: true,
            reduce_only: Some(true),
        },
    }
}

/// The transition relation of the controller: from a state and an event to
/// the next state and the driver's next action.
pub open spec fn spec_step(
    cfg: StrategyConfigView,
    phase: Phase,
    st: PhaseStateV,
    ev: PhaseEventV,
) -> (PhaseStateV, PhaseActionV) {
    match (st, ev) {
        (PhaseStateV::AwaitingQty, PhaseEventV::Positions(Ok(ps))) => match spec_find_short(
            ps,
            cfg.symbol,
        ) {
            Some(q) => (PhaseStateV::AwaitingPrice(q), PhaseActionV::WaitPrice),
            None => (PhaseStateV::Complete, PhaseActionV::Finish),
        },
        (PhaseStateV::AwaitingQty, PhaseEventV::Positions(Err(e))) => if cfg.fallback_qty_on_query_failure {
            (PhaseStateV::AwaitingPrice(cfg.quantity), PhaseActionV::WaitPrice)
        } else {
            (PhaseStateV::Failed(e.message()), PhaseActionV::Fail(e.message()))
        },
        (PhaseStateV::AwaitingPrice(qty), PhaseEventV::Price(t)) => (
            PhaseStateV::AwaitingPlacement(qty),
            PhaseActionV::Place(order_view(cfg, phase, qty, t)),
        ),
        (PhaseStateV::AwaitingPlacement(_), PhaseEventV::Placement(Ok(resp))) => if resp.status
            == "Filled"@ {
            (PhaseStateV::Complete, PhaseActionV::Finish)
        } else {
            (
                PhaseStateV::Watching(resp.id, FillStatus::Pending),
                PhaseActionV::AwaitEventOrTimeout,
            )
        },
        (PhaseStateV::AwaitingPlacement(_), PhaseEventV::Placement(Err(e))) => (
            PhaseStateV::Failed(e.message()),
            PhaseActionV::Fail(e.message()),
        ),
        (PhaseStateV::Watching(id, obs), PhaseEventV::Order(u)) => if u.order_id != id {
            (PhaseStateV::Watching(id, obs), PhaseActionV::KeepWaiting)
        } else if u.order_status == "Filled"@ {
            (PhaseStateV::Complete, PhaseActionV::Finish)
        } else if u.order_status == "PartiallyFilled"@ {
            (PhaseStateV::Watching(id, FillStatus::PartiallyFilled), PhaseActionV::KeepWaiting)
        } else {
            (PhaseStateV::Watching(id, obs), PhaseActionV::KeepWaiting)
        },
        (PhaseStateV::Watching(id, obs), PhaseEventV::TimerElapsed) => match obs {
            FillStatus::Pending => (
                PhaseStateV::CancellingThenRetry(id),
                PhaseActionV::Cancel(id),
            ),
            FillStatus::PartiallyFilled => match phase {
                Phase::Open => (PhaseStateV::CancellingThenDone(id), PhaseActionV::Cancel(id)),
                Phase::Close => (PhaseStateV::CancellingThenCheck(id), PhaseActionV::Cancel(id)),
            },
            FillStatus::FullyFilled => (PhaseStateV::Complete, PhaseActionV::Finish),
        },
        (PhaseStateV::CancellingThenRetry(_), PhaseEventV::CancelFinished(_)) => match phase {
            Phase::Open => (PhaseStateV::AwaitingPrice(cfg.quantity), PhaseActionV::WaitPrice),
            Phase::Close => (PhaseStateV::AwaitingQty, PhaseActionV::QueryPositions),
        },
        (PhaseStateV::CancellingThenDone(_), PhaseEventV::CancelFinished(_)) => (
            PhaseStateV::Complete,
            PhaseActionV::Finish,
        ),
        (PhaseStateV::CancellingThenCheck(_), PhaseEventV::CancelFinished(_)) => (
            PhaseStateV::CheckingPosition,
            PhaseActionV::QueryPositions,
        ),
        (PhaseStateV::CheckingPosition, PhaseEventV::Positions(Ok(ps))) => if spec_has_short(
            ps,
            cfg.symbol,
        ) {
            (PhaseStateV::AwaitingQty, PhaseActionV::QueryPositions)
        } else {
            (PhaseStateV::Complete, PhaseActionV::Finish)
        },
        (PhaseStateV::CheckingPosition, PhaseEventV::Positions(Err(e))) => if cfg.fatal_on_reconcile_failure {
            (PhaseStateV::Failed(e.message()), PhaseActionV::Fail(e.message()))
        } else {
            (PhaseStateV::AwaitingQty, PhaseActionV::QueryPositions)
        },
        (PhaseStateV::Complete, _) => (PhaseStateV::Complete, PhaseActionV::Finish),
        (PhaseStateV::Failed(r), _) => (PhaseStateV::Failed(r), PhaseActionV::Fail(r)),
        (s, _) => (s, PhaseActionV::KeepWaiting),
    }
}

/// Where a phase starts: opening waits for a price with the fixed
/// quantity; closing first queries the live position.
pub open spec fn spec_phase_start(cfg: StrategyConfigView, phase: Phase) -> (
    PhaseStateV,
    PhaseActionV,
) {
    match phase {
        Phase::Open => (PhaseStateV::AwaitingPrice(cfg.quantity), PhaseActionV::WaitPrice),
        Phase::Close => (PhaseStateV::AwaitingQty, PhaseActionV::QueryPositions),
    }
}

/// The entry state and first action of a phase.
pub fn phase_start(cfg: &StrategyConfig, phase: Phase) -> (r: (PhaseState, PhaseAction))
    ensures
        (r.0@, r.1@) == spec_phase_start(cfg@, phase),
{
    match phase {
        Phase::Open => (PhaseState::AwaitingPrice(cfg.quantity.clone()), PhaseAction::WaitPrice),
        Phase::Close => (PhaseState::AwaitingQty, PhaseAction::QueryPositions),
    }
}

/// The first open short of `symbol` in a reported position list.
pub fn find_short_position(ps: &Vec<PositionResponse>, symbol: &str) -> (r: Option<String>)
    ensures
        opt_view(r) == spec_find_short(positions_view(ps@), symbol@),
{
    let mut i: usize = 0;
    proof {
        assert(positions_view(ps@).skip(0) =~= positions_view(ps@));
    }
    while i < ps.len()
        invariant
            0 <= i <= ps@.len(),
            spec_find_short(positions_view(ps@), symbol@) == spec_find_short(
                positions_view(ps@).skip(i as int),
                symbol@,
            ),
        decreases ps@.len() - i,
    {
        let p = &ps[i];
        proof {
            assert(positions_view(ps@).skip(i as int)[0] == ps@[i as int]@);
            assert(positions_view(ps@).skip(i as int).drop_first() =~= positions_view(ps@).skip(
                i + 1,
            ));
        }
        if str_eq(p.symbol.as_str(), symbol) && str_eq(p.side.as_str(), "Ask") && is_nonzero_qty(
            p.quantity.as_str(),
        ) {
            return Some(p.quantity.clone());
        }
        i = i + 1;
    }
    None
}

/// Builds the order a phase places from the latest snapshot.
fn build_order(cfg: &StrategyConfig, phase: Phase, qty: &String, t: &BookTickerData) -> (r:
    OrderRequest)
    ensures
        r@ == order_view(cfg@, phase, qty@, t@),
{
    match phase {
        Phase::Open => OrderRequest {
            symbol: cfg.symbol.clone(),
            side: String::from_str("Ask"),
            order_type: String::from_str("Limit"),
            quantity: qty.clone(),
            price: t.best_ask_price.clone(),
            post_only: true,
            reduce_only: None,
        },
        Phase::Close => OrderRequest {
            symbol: cfg.symbol.clone(),
            side: String::from_str("Bid"),
            order_type: String::from_str("Limit"),
            quantity: qty.clone(),
            price: t.best_bid_price.clone(),
            post_only: true,
            reduce_only: Some(true),
        },
    }
}

/// One controller transition. The returned action is what the driver does
/// next; the returned state is where the next event lands.
pub fn step(cfg: &StrategyConfig, phase: Phase, st: PhaseState, ev: PhaseEvent) -> (r: (
    PhaseState,
    PhaseAction,
))
    ensures
        (r.0@, r.1@) == spec_step(cfg@, phase, st@, ev@),
{
    match (st, ev) {
        (PhaseState::AwaitingQty, PhaseEvent::Positions(Ok(ps))) => {
            match find_short_position(&ps, cfg.symbol.as_str()) {
                Some(q) => (PhaseState::AwaitingPrice(q), PhaseAction::WaitPrice),
                None => (PhaseState::Complete, PhaseAction::Finish),
            }
        },
        (PhaseState::AwaitingQty, PhaseEvent::Positions(Err(e))) => {
            if cfg.fallback_qty_on_query_failure {
                (PhaseState::AwaitingPrice(cfg.quantity.clone()), PhaseAction::WaitPrice)
            } else {
                let m = e.message().clone();
                (PhaseState::Failed(m.clone()), PhaseAction::Fail(m))
            }
        },
        (PhaseState::AwaitingPrice(qty), PhaseEvent::Price(t)) => {
            let req = build_order(cfg, phase, &qty, &t);
            (PhaseState::AwaitingPlacement(qty), PhaseAction::Place(req))
        },
        (PhaseState::AwaitingPlacement(_), PhaseEvent::Placement(Ok(resp))) => {
            if str_eq(resp.status.as_str(), "Filled") {
                (PhaseState::Complete, PhaseAction::Finish)
            } else {
                (
                    PhaseState::Watching(resp.id, FillStatus::Pending),
                    PhaseAction::AwaitEventOrTimeout,
                )
            }
        },
        (PhaseState::AwaitingPlacement(_), PhaseEvent::Placement(Err(e))) => {
            let m = e.message().clone();
            (PhaseState::Failed(m.clone()), PhaseAction::Fail(m))
        },
        (PhaseState::Watching(id, obs), PhaseEvent::Order(u)) => {
            if !str_eq(u.order_id.as_str(), id.as_str()) {
                (PhaseState::Watching(id, obs), PhaseAction::KeepWaiting)
            } else if str_eq(u.order_status.as_str(), "Filled") {
                (PhaseState::Complete, PhaseAction::Finish)
            } else if str_eq(u.order_status.as_str(), "PartiallyFilled") {
                (
                    PhaseState::Watching(id, FillStatus::PartiallyFilled),
                    PhaseAction::KeepWaiting,
                )
            } else {
                (PhaseState::Watching(id, obs), PhaseAction::KeepWaiting)
            }
        },
        (PhaseState::Watching(id, obs), PhaseEvent::TimerElapsed) => {
            match obs {
                FillStatus::Pending => {
                    let s = PhaseState::CancellingThenRetry(id.clone());
                    (s, PhaseAction::Cancel(id))
                },
                FillStatus::PartiallyFilled => {
                    match phase {
                        Phase::Open => {
                            let s = PhaseState::CancellingThenDone(id.clone());
                            (s, PhaseAction::Cancel(id))
                        },
                        Phase::Close => {
                            let s = PhaseState::CancellingThenCheck(id.clone());
                            (s, PhaseAction::Cancel(id))
                        },
                    }
                },
                FillStatus::FullyFilled => (PhaseState::Complete, PhaseAction::Finish),
            }
        },
        (PhaseState::CancellingThenRetry(_), PhaseEvent::CancelFinished(_)) => {
            match phase {
                Phase::Open => (
                    PhaseState::AwaitingPrice(cfg.quantity.clone()),
                    PhaseAction::WaitPrice,
                ),
                Phase::Close => (PhaseState::AwaitingQty, PhaseAction::QueryPositions),
            }
        },
        (PhaseState::CancellingThenDone(_), PhaseEvent::CancelFinished(_)) => (
            PhaseState::Complete,
            PhaseAction::Finish,
        ),
        (PhaseState::CancellingThenCheck(_), PhaseEvent::CancelFinished(_)) => (
            PhaseState::CheckingPosition,
            PhaseAction::QueryPositions,
        ),
        (PhaseState::CheckingPosition, PhaseEvent::Positions(Ok(ps))) => {
            match find_short_position(&ps, cfg.symbol.as_str()) {
                Some(_) => (PhaseState::AwaitingQty, PhaseAction::QueryPositions),
                None => (PhaseState::Complete, PhaseAction::Finish),
            }
        },
        (PhaseState::CheckingPosition, PhaseEvent::Positions(Err(e))) => {
            if cfg.fatal_on_reconcile_failure {
                let m = e.message().clone();
                (PhaseState::Failed(m.clone()), PhaseAction::Fail(m))
            } else {
                (PhaseState::AwaitingQty, PhaseAction::QueryPositions)
            }
        },
        (PhaseState::Complete, _) => (PhaseState::Complete, PhaseAction::Finish),
        (PhaseState::Failed(r), _) => {
            let s = PhaseState::Failed(r.clone());
            (s, PhaseAction::Fail(r))
        },
        (s, _) => (s, PhaseAction::KeepWaiting),
    }
}

/// Immediate fill: when the placement response itself reports `Filled`,
/// the phase completes at once — the controller finishes without
/// subscribing to the event broadcast or starting the timer.
pub proof fn lemma_immediate_fill(
    cfg: StrategyConfigView,
    phase: Phase,
    qty: Seq<char>,
    resp: OrderResponseView,
)
    requires
        resp.status == "Filled"@,
    ensures
        spec_step(cfg, phase, PhaseStateV::AwaitingPlacement(qty), PhaseEventV::Placement(Ok(resp)))
            == (PhaseStateV::Complete, PhaseActionV::Finish),
{
}

/// Timeout with nothing observed, opening phase: a placement response that
/// is not yet `Filled` leaves the controller watching as `Pending`; events
/// for other orders do not change that; at the timeout the controller
/// cancels, and once the cancel finishes it retries with a fresh price and
/// the configured quantity.
pub proof fn lemma_open_timeout_retries(
    cfg: StrategyConfigView,
    qty: Seq<char>,
    resp: OrderResponseView,
    other: OrderUpdateDataView,
    cancel_outcome: Option<BotErrorView>,
)
    requires
        resp.status != "Filled"@,
        other.order_id != resp.id,
    ensures
        spec_step(
            cfg,
            Phase::Open,
            PhaseStateV::AwaitingPlacement(qty),
            PhaseEventV::Placement(Ok(resp)),
        ) == (
            PhaseStateV::Watching(resp.id, FillStatus::Pending),
            PhaseActionV::AwaitEventOrTimeout,
        ),
        spec_step(
            cfg,
            Phase::Open,
            PhaseStateV::Watching(resp.id, FillStatus::Pending),
            PhaseEventV::Order(other),
        ) == (
            PhaseStateV::Watching(resp.id, FillStatus::Pending),
            PhaseActionV::KeepWaiting,
        ),
        spec_step(
            cfg,
            Phase::Open,
            PhaseStateV::Watching(resp.id, FillStatus::Pending),
            PhaseEventV::TimerElapsed,
        ) == (PhaseStateV::CancellingThenRetry(resp.id), PhaseActionV::Cancel(resp.id)),
        spec_step(
            cfg,
            Phase::Open,
            PhaseStateV::CancellingThenRetry(resp.id),
            PhaseEventV::CancelFinished(cancel_outcome),
        ) == (PhaseStateV::AwaitingPrice(cfg.quantity), PhaseActionV::WaitPrice),
{
}

/// Closing phase, partial then flat: a matching `PartiallyFilled` event is
/// recorded; at the timeout the remainder is cancelled and the position
/// re-queried; a query showing no remaining short completes the phase with
/// no further retry.
pub proof fn lemma_close_partial_then_flat(
    cfg: StrategyConfigView,
    id: Seq<char>,
    partial: OrderUpdateDataView,
    cancel_outcome: Option<BotErrorView>,
    ps: Seq<PositionResponseView>,
)
    requires
        partial.order_id == id,
        partial.order_status == "PartiallyFilled"@,
        !spec_has_short(ps, cfg.symbol),
    ensures
        spec_step(
            cfg,
            Phase::Close,
            PhaseStateV::Watching(id, FillStatus::Pending),
            PhaseEventV::Order(partial),
        ) == (
            PhaseStateV::Watching(id, FillStatus::PartiallyFilled),
            PhaseActionV::KeepWaiting,
        ),
        spec_step(
            cfg,
            Phase::Close,
            PhaseStateV::Watching(id, FillStatus::PartiallyFilled),
            PhaseEventV::TimerElapsed,
        ) == (PhaseStateV::CancellingThenCheck(id), PhaseActionV::Cancel(id)),
        spec_step(
            cfg,
            Phase::Close,
            PhaseStateV::CancellingThenCheck(id),
            PhaseEventV::CancelFinished(cancel_outcome),
        ) == (PhaseStateV::CheckingPosition, PhaseActionV::QueryPositions),
        spec_step(
            cfg,
            Phase::Close,
            PhaseStateV::CheckingPosition,
            PhaseEventV::Positions(Ok(ps)),
        ) == (PhaseStateV::Complete, PhaseActionV::Finish),
{
    reveal_strlit("PartiallyFilled");
    reveal_strlit("Filled");
    assert("PartiallyFilled"@.len() == 15);
    assert("Filled"@.len() == 6);
    assert(partial.order_status != "Filled"@);
}

/// Closing phase, reconciliation query failure: with the fatal policy (the
/// reference behaviour) the failure is process-fatal, and from the failed
/// state no event ever leads to another order being placed.
pub proof fn lemma_close_check_failure_fatal(
    cfg: StrategyConfigView,
    e: BotErrorView,
    later: PhaseEventV,
)
    requires
        cfg.fatal_on_reconcile_failure,
    ensures
        spec_step(cfg, Phase::Close, PhaseStateV::CheckingPosition, PhaseEventV::Positions(Err(e)))
            == (PhaseStateV::Failed(e.message()), PhaseActionV::Fail(e.message())),
        spec_step(cfg, Phase::Close, PhaseStateV::Failed(e.message()), later) == (
            PhaseStateV::Failed(e.message()),
            PhaseActionV::Fail(e.message()),
        ),
{
}

/// The controller only ever places an order in direct response to a fresh
/// price snapshot, and a terminal state stays terminal.
pub proof fn lemma_step_safety(
    cfg: StrategyConfigView,
    phase: Phase,
    st: PhaseStateV,
    ev: PhaseEventV,
)
    ensures
        spec_step(cfg, phase, st, ev).1 is Place ==> st is AwaitingPrice && ev is Price,
        st is Complete ==> spec_step(cfg, phase, st, ev) == (
            PhaseStateV::Complete,
            PhaseActionV::Finish,
        ),
        st is Failed ==> spec_step(cfg, phase, st, ev).0 == st && spec_step(
            cfg,
            phase,
            st,
            ev,
        ).1 is Fail,
{
}

/// The four stages of the endless cycle: open, pause, close, pause, again.
#[derive(Clone, Copy)]
pub enum CycleStage {
    Opening,
    PauseAfterOpen,
    Closing,
    PauseAfterClose,
}

/// The successor of each stage in the cycle.
pub open spec fn spec_next_stage(s: CycleStage) -> CycleStage {
    match s {
        CycleStage::Opening => CycleStage::PauseAfterOpen,
        CycleStage::PauseAfterOpen => CycleStage::Closing,
        CycleStage::Closing => CycleStage::PauseAfterClose,
        CycleStage::PauseAfterClose => CycleStage::Opening,
    }
}

/// Advances the cycle one stage.
pub fn next_stage(s: CycleStage) -> (r: CycleStage)
    ensures
        r == spec_next_stage(s),
{
    match s {
        CycleStage::Opening => CycleStage::PauseAfterOpen,
        CycleStage::PauseAfterOpen => CycleStage::Closing,
        CycleStage::Closing => CycleStage::PauseAfterClose,
        CycleStage::PauseAfterClose => CycleStage::Opening,
    }
}

/// The phase a stage runs, if it runs one.
pub fn stage_phase(s: CycleStage) -> (r: Option<Phase>)
    ensures
        s is Opening ==> r == Some(Phase::Open),
        s is Closing ==> r == Some(Phase::Close),
        s is PauseAfterOpen || s is PauseAfterClose ==> r is None,
{
    match s {
        CycleStage::Opening => Some(Phase::Open),
        CycleStage::Closing => Some(Phase::Close),
        CycleStage::PauseAfterOpen => None,
        CycleStage::PauseAfterClose => None,
    }
}

} // verus!
