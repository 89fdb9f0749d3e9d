//! Data model of the exchange boundary: streaming messages, REST payloads,
//! positions, and the error taxonomy. All fields are plain values; decoding
//! from and encoding to wire JSON happens outside the verified core.

use vstd::prelude::*;

verus! {

/// An inbound streaming frame: the topic it arrived on and its decoded payload.
#[derive(Debug)]
pub struct WsMessage<T> {
    pub stream: String,
    pub data: T,
}

/// A best-bid/best-ask snapshot from the price-ticker topic.
#[derive(Debug)]
pub struct BookTickerData {
    pub event_type: String,
    pub event_time: u64,
    pub symbol: String,
    pub best_ask_price: String,
    pub best_ask_qty: String,
    pub best_bid_price: String,
    pub best_bid_qty: String,
    pub engine_timestamp: u64,
}

/// A private order-update event from the order-update topic.
#[derive(Debug)]
pub struct OrderUpdateData {
    pub event_type: String,
    pub symbol: String,
    pub order_id: String,
    pub order_status: String,
    pub fill_quantity: Option<String>,
    pub executed_quantity: Option<String>,
}

/// The body of an order-placement request.
#[derive(Debug)]
pub struct OrderRequest {
    pub symbol: String,
    pub side: String,
    pub order_type: String,
    pub quantity: String,
    pub price: String,
    pub post_only: bool,
    pub reduce_only: Option<bool>,
}

/// The exchange's response to an order placement or cancellation.
#[derive(Debug)]
pub struct OrderResponse {
    pub id: String,
    pub status: String,
    pub symbol: String,
    pub side: String,
    pub quantity: String,
    pub executed_quantity: String,
}

/// One open position as reported by the position query.
#[derive(Debug)]
pub struct PositionResponse {
    pub symbol: String,
    pub side: String,
    pub quantity: String,
}

/// The body of an order-cancellation request.
#[derive(Debug)]
pub struct CancelRequest {
    pub symbol: String,
    pub order_id: String,
}

/// The body of the leverage-update request.
#[derive(Debug)]
pub struct UpdateAccountRequest {
    pub leverage_limit: String,
}

/// Failure taxonomy. Transport and decode failures carry the peer's or the
/// decoder's message as text.
#[derive(Debug)]
pub enum BotError {
    WsError(String),
    RestError(String),
    JsonError(String),
    AuthError(String),
    IoError(String),
    EnvError(String),
    StrategyError(String),
}

/// The mathematical content of a price snapshot.
#[verifier::ext_equal]
pub struct BookTickerDataView {
    pub event_type: Seq<char>,
    pub event_time: u64,
    pub symbol: Seq<char>,
    pub best_ask_price: Seq<char>,
    pub best_ask_qty: Seq<char>,
    pub best_bid_price: Seq<char>,
    pub best_bid_qty: Seq<char>,
    pub engine_timestamp: u64,
}

impl View for BookTickerData {
    type V = BookTickerDataView;

    open spec fn view(&self) -> BookTickerDataView {
        BookTickerDataView {
            event_type: self.event_type@,
            event_time: self.event_time,
            symbol: self.symbol@,
            best_ask_price: self.best_ask_price@,
            best_ask_qty: self.best_ask_qty@,
            best_bid_price: self.best_bid_price@,
            best_bid_qty: self.best_bid_qty@,
            engine_timestamp: self.engine_timestamp,
        }
    }
}

/// The mathematical content of an order update.
#[verifier::ext_equal]
pub struct OrderUpdateDataView {
    pub event_type: Seq<char>,
    pub symbol: Seq<char>,
    pub order_id: Seq<char>,
    pub order_status: Seq<char>,
    pub fill_quantity: Option<Seq<char>>,
    pub executed_quantity: Option<Seq<char>>,
}

/// The view of an optional string.
pub open spec fn opt_view(o: Option<String>) -> Option<Seq<char>> {
    match o {
        Some(s) => Some(s@),
        None => None,
    }
}

impl View for OrderUpdateData {
    type V = OrderUpdateDataView;

    open spec fn view(&self) -> OrderUpdateDataView {
        OrderUpdateDataView {
            event_type: self.event_type@,
            symbol: self.symbol@,
            order_id: self.order_id@,
            order_status: self.order_status@,
            fill_quantity: opt_view(self.fill_quantity),
            executed_quantity: opt_view(self.executed_quantity),
        }
    }
}

/// The mathematical content of an order placement body.
#[verifier::ext_equal]
pub struct OrderRequestView {
    pub symbol: Seq<char>,
    pub side: Seq<char>,
    pub order_type: Seq<char>,
    pub quantity: Seq<char>,
    pub price: Seq<char>,
    pub post_only: bool,
    pub reduce_only: Option<bool>,
}

impl View for OrderRequest {
    type V = OrderRequestView;

    open spec fn view(&self) -> OrderRequestView {
        OrderRequestView {
            symbol: self.symbol@,
            side: self.side@,
            order_type: self.order_type@,
            quantity: self.quantity@,
            price: self.price@,
            post_only: self.post_only,
            reduce_only: self.reduce_only,
        }
    }
}

/// The mathematical content of a placement or cancellation response.
#[verifier::ext_equal]
pub struct OrderResponseView {
    pub id: Seq<char>,
    pub status: Seq<char>,
    pub symbol: Seq<char>,
    pub side: Seq<char>,
    pub quantity: Seq<char>,
    pub executed_quantity: Seq<char>,
}

impl View for OrderResponse {
    type V = OrderResponseView;

    open spec fn view(&self) -> OrderResponseView {
        OrderResponseView {
            id: self.id@,
            status: self.status@,
            symbol: self.symbol@,
            side: self.side@,
            quantity: self.quantity@,
            executed_quantity: self.executed_quantity@,
        }
    }
}

/// The mathematical content of a reported position.
#[verifier::ext_equal]
pub struct PositionResponseView {
    pub symbol: Seq<char>,
    pub side: Seq<char>,
    pub quantity: Seq<char>,
}

impl View for PositionResponse {
    type V = PositionResponseView;

    open spec fn view(&self) -> PositionResponseView {
        PositionResponseView { symbol: self.symbol@, side: self.side@, quantity: self.quantity@ }
    }
}

/// The mathematical content of an error: its variant and message text.
#[verifier::ext_equal]
pub enum BotErrorView {
    WsError(Seq<char>),
    RestError(Seq<char>),
    JsonError(Seq<char>),
    AuthError(Seq<char>),
    IoError(Seq<char>),
    EnvError(Seq<char>),
    StrategyError(Seq<char>),
}

impl View for BotError {
    type V = BotErrorView;

    open spec fn view(&self) -> BotErrorView {
        match *self {
            BotError::WsError(s) => BotErrorView::WsError(s@),
            BotError::RestError(s) => BotErrorView::RestError(s@),
            BotError::JsonError(s) => BotErrorView::JsonError(s@),
            BotError::AuthError(s) => BotErrorView::AuthError(s@),
            BotError::IoError(s) => BotErrorView::IoError(s@),
            BotError::EnvError(s) => BotErrorView::EnvError(s@),
            BotError::StrategyError(s) => BotErrorView::StrategyError(s@),
        }
    }
}

impl BotErrorView {
    /// The message text of an error view.
    pub open spec fn message(self) -> Seq<char> {
        match self {
            BotErrorView::WsError(s) => s,
            BotErrorView::RestError(s) => s,
            BotErrorView::JsonError(s) => s,
            BotErrorView::AuthError(s) => s,
            BotErrorView::IoError(s) => s,
            BotErrorView::EnvError(s) => s,
            BotErrorView::StrategyError(s) => s,
        }
    }
}

impl Clone for BookTickerData {
    fn clone(&self) -> (r: Self)
        ensures
            r == *self,
    {
        BookTickerData {
            event_type: self.event_type.clone(),
            event_time: self.event_time,
            symbol: self.symbol.clone(),
            best_ask_price: self.best_ask_price.clone(),
            best_ask_qty: self.best_ask_qty.clone(),
            best_bid_price: self.best_bid_price.clone(),
            best_bid_qty: self.best_bid_qty.clone(),
            engine_timestamp: self.engine_timestamp,
        }
    }
}

impl Clone for OrderUpdateData {
    fn clone(&self) -> (r: Self)
        ensures
            r == *self,
    {
        OrderUpdateData {
            event_type: self.event_type.clone(),
            symbol: self.symbol.clone(),
            order_id: self.order_id.clone(),
            order_status: self.order_status.clone(),
            fill_quantity: clone_opt(&self.fill_quantity),
            executed_quantity: clone_opt(&self.executed_quantity),
        }
    }
}

/// Clones an optional string, field for field.
pub fn clone_opt(o: &Option<String>) -> (r: Option<String>)
    ensures
        r == *o,
{
    match o {
        Some(s) => Some(s.clone()),
        None => None,
    }
}

impl Clone for OrderResponse {
    fn clone(&self) -> (r: Self)
        ensures
            r == *self,
    {
        OrderResponse {
            id: self.id.clone(),
            status: self.status.clone(),
            symbol: self.symbol.clone(),
            side: self.side.clone(),
            quantity: self.quantity.clone(),
            executed_quantity: self.executed_quantity.clone(),
        }
    }
}

impl Clone for PositionResponse {
    fn clone(&self) -> (r: Self)
        ensures
            r == *self,
    {
        PositionResponse {
            symbol: self.symbol.clone(),
            side: self.side.clone(),
            quantity: self.quantity.clone(),
        }
    }
}

impl Clone for OrderRequest {
    fn clone(&self) -> (r: Self)
        ensures
            r == *self,
    {
        OrderRequest {
            symbol: self.symbol.clone(),
            side: self.side.clone(),
            order_type: self.order_type.clone(),
            quantity: self.quantity.clone(),
            price: self.price.clone(),
            post_only: self.post_only,
            reduce_only: self.reduce_only,
        }
    }
}

impl BotError {
    /// The message text carried by an error, variant by variant.
    pub open spec fn spec_message(&self) -> String {
        match *self {
            BotError::WsError(s) => s,
            BotError::RestError(s) => s,
            BotError::JsonError(s) => s,
            BotError::AuthError(s) => s,
            BotError::IoError(s) => s,
            BotError::EnvError(s) => s,
            BotError::StrategyError(s) => s,
        }
    }

    /// The message text carried by this error.
    pub fn message(&self) -> (r: &String)
        ensures
            *r == self.spec_message(),
    {
        match self {
            BotError::WsError(s) => s,
            BotError::RestError(s) => s,
            BotError::JsonError(s) => s,
            BotError::AuthError(s) => s,
            BotError::IoError(s) => s,
            BotError::EnvError(s) => s,
            BotError::StrategyError(s) => s,
        }
    }
}

impl Clone for BotError {
    fn clone(&self) -> (r: Self)
        ensures
            r == *self,
    {
        match self {
            BotError::WsError(s) => BotError::WsError(s.clone()),
            BotError::RestError(s) => BotError::RestError(s.clone()),
            BotError::JsonError(s) => BotError::JsonError(s.clone()),
            BotError::AuthError(s) => BotError::AuthError(s.clone()),
            BotError::IoError(s) => BotError::IoError(s.clone()),
            BotError::EnvError(s) => BotError::EnvError(s.clone()),
            BotError::StrategyError(s) => BotError::StrategyError(s.clone()),
        }
    }
}

} // verus!
