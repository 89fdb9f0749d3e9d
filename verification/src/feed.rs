//! The market-feed core: classification of decoded inbound frames onto the
//! two internal channels, and the exact subscribe frames sent on connect.
//! Transport frames arrive already decoded (or not) by the embedding code;
//! a frame matching neither shape is dropped silently.

use vstd::prelude::*;
use vstd::string::StringExecFns;

use crate::json::json_escape;
use crate::json::json_escape_str;
use crate::models::BookTickerData;
use crate::models::BookTickerDataView;
use crate::models::OrderUpdateData;
use crate::models::OrderUpdateDataView;
use crate::models::WsMessage;
use crate::text::spec_starts_with;
use crate::text::str_starts_with;

verus! {

/// What the feed does with one inbound frame.
pub enum FeedAction {
    /// Overwrite the shared last-value price slot.
    PublishPrice(BookTickerData),
    /// Broadcast to all current order-event listeners.
    BroadcastOrder(OrderUpdateData),
    /// Silently ignore.
    Drop,
}

/// The view of a feed action.
#[verifier::ext_equal]
pub enum FeedActionV {
    PublishPrice(BookTickerDataView),
    BroadcastOrder(OrderUpdateDataView),
    Drop,
}

impl View for FeedAction {
    type V = FeedActionV;

    open spec fn view(&self) -> FeedActionV {
        match *self {
            FeedAction::PublishPrice(t) => FeedActionV::PublishPrice(t@),
            FeedAction::BroadcastOrder(u) => FeedActionV::BroadcastOrder(u@),
            FeedAction::Drop => FeedActionV::Drop,
        }
    }
}

/// The routing rule: a frame that decodes as a ticker is considered first
/// and used only if its topic starts with `bookTicker`; otherwise a frame
/// that decodes as an order update is used only if its topic starts with
/// `account.orderUpdate`; everything else is dropped.
pub open spec fn spec_route(
    ticker: Option<(Seq<char>, BookTickerDataView)>,
    order: Option<(Seq<char>, OrderUpdateDataView)>,
) -> FeedActionV {
    match ticker {
        Some((stream, data)) => if spec_starts_with(stream, "bookTicker"@) {
            FeedActionV::PublishPrice(data)
        } else {
            FeedActionV::Drop
        },
        None => match order {
            Some((stream, data)) => if spec_starts_with(stream, "account.orderUpdate"@) {
                FeedActionV::BroadcastOrder(data)
            } else {
                FeedActionV::Drop
            },
            None => FeedActionV::Drop,
        },
    }
}

/// The view of an optional decoded ticker frame.
pub open spec fn ticker_msg_view(m: Option<WsMessage<BookTickerData>>) -> Option<
    (Seq<char>, BookTickerDataView),
> {
    match m {
        Some(w) => Some((w.stream@, w.data@)),
        None => None,
    }
}

/// The view of an optional decoded order-update frame.
pub open spec fn order_msg_view(m: Option<WsMessage<OrderUpdateData>>) -> Option<
    (Seq<char>, OrderUpdateDataView),
> {
    match m {
        Some(w) => Some((w.stream@, w.data@)),
        None => None,
    }
}

/// Routes one inbound frame, given the outcome of the two decoders.
pub fn route_message(
    ticker: Option<WsMessage<BookTickerData>>,
    order: Option<WsMessage<OrderUpdateData>>,
) -> (r: FeedAction)
    ensures
        r@ == spec_route(ticker_msg_view(ticker), order_msg_view(order)),
{
    match ticker {
        Some(w) => {
            if str_starts_with(w.stream.as_str(), "bookTicker") {
                FeedAction::PublishPrice(w.data)
            } else {
                FeedAction::Drop
            }
        },
        None => match order {
            Some(w) => {
                if str_starts_with(w.stream.as_str(), "account.orderUpdate") {
                    FeedAction::BroadcastOrder(w.data)
                } else {
                    FeedAction::Drop
                }
            },
            None => FeedAction::Drop,
        },
    }
}

/// The public price-ticker subscription frame for `symbol`.
pub open spec fn spec_ticker_subscribe_frame(symbol: Seq<char>) -> Seq<char> {
    "{\"method\":\"SUBSCRIBE\",\"params\":[\"bookTicker."@ + json_escape(symbol) + "\"]}"@
}

/// Builds the public price-ticker subscription frame.
pub fn ticker_subscribe_frame(symbol: &str) -> (r: String)
    ensures
        r@ == spec_ticker_subscribe_frame(symbol@),
{
    let mut s = String::from_str("{\"method\":\"SUBSCRIBE\",\"params\":[\"bookTicker.");
    let e = json_escape_str(symbol);
    s.append(e.as_str());
    s.append("\"]}");
    proof {
        assert(s@ =~= spec_ticker_subscribe_frame(symbol@));
    }
    s
}

/// The authenticated order-update subscription frame: the fixed private
/// topic plus the four-element signature block `[api key, signature,
/// timestamp, window]`.
pub open spec fn spec_order_subscribe_frame(
    k: Seq<char>,
    sig: Seq<char>,
    ts: Seq<char>,
    w: Seq<char>,
) -> Seq<char> {
    "{\"method\":\"SUBSCRIBE\",\"params\":[\"account.orderUpdate\"],\"signature\":[\""@
        + json_escape(k) + "\",\""@ + json_escape(sig) + "\",\""@ + json_escape(ts) + "\",\""@
        + json_escape(w) + "\"]}"@
}

/// Builds the authenticated order-update subscription frame from the
/// signature block produced by the signer.
pub fn order_subscribe_frame(signature: &Vec<String>) -> (r: String)
    requires
        signature@.len() == 4,
    ensures
        r@ == spec_order_subscribe_frame(
            signature@[0]@,
            signature@[1]@,
            signature@[2]@,
            signature@[3]@,
        ),
{
    let mut s = String::from_str(
        "{\"method\":\"SUBSCRIBE\",\"params\":[\"account.orderUpdate\"],\"signature\":[\"",
    );
    let e0 = json_escape_str(signature[0].as_str());
    s.append(e0.as_str());
    s.append("\",\"");
    let e1 = json_escape_str(signature[1].as_str());
    s.append(e1.as_str());
    s.append("\",\"");
    let e2 = json_escape_str(signature[2].as_str());
    s.append(e2.as_str());
    s.append("\",\"");
    let e3 = json_escape_str(signature[3].as_str());
    s.append(e3.as_str());
    s.append("\"]}");
    proof {
        assert(s@ =~= spec_order_subscribe_frame(
            signature@[0]@,
            signature@[1]@,
            signature@[2]@,
            signature@[3]@,
        ));
    }
    s
}

} // verus!
