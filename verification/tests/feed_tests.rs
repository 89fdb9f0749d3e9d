use base64::Engine;

use perp_cycle::feed::FeedAction;
use perp_cycle::feed::order_subscribe_frame;
use perp_cycle::feed::route_message;
use perp_cycle::feed::ticker_subscribe_frame;
use perp_cycle::models::BookTickerData;
use perp_cycle::models::OrderUpdateData;
use perp_cycle::models::WsMessage;
use perp_cycle::signing::Authenticator;

fn ticker_msg(stream: &str) -> WsMessage<BookTickerData> {
    WsMessage {
        stream: stream.to_string(),
        data: BookTickerData {
            event_type: "bookTicker".to_string(),
            event_time: 1,
            symbol: "APT_USDC_PERP".to_string(),
            best_ask_price: "3.19".to_string(),
            best_ask_qty: "1".to_string(),
            best_bid_price: "3.18".to_string(),
            best_bid_qty: "1".to_string(),
            engine_timestamp: 1,
        },
    }
}

fn order_msg(stream: &str) -> WsMessage<OrderUpdateData> {
    WsMessage {
        stream: stream.to_string(),
        data: OrderUpdateData {
            event_type: "orderFill".to_string(),
            symbol: "APT_USDC_PERP".to_string(),
            order_id: "oid".to_string(),
            order_status: "Filled".to_string(),
            fill_quantity: Some("1".to_string()),
            executed_quantity: Some("1".to_string()),
        },
    }
}

#[test]
fn ticker_frames_go_to_the_price_slot() {
    let r = route_message(Some(ticker_msg("bookTicker.APT_USDC_PERP")), None);
    match r {
        FeedAction::PublishPrice(t) => assert_eq!(t.best_ask_price, "3.19"),
        _ => panic!("expected a price publication"),
    }
}

#[test]
fn order_frames_go_to_the_broadcast() {
    let r = route_message(None, Some(order_msg("account.orderUpdate")));
    match r {
        FeedAction::BroadcastOrder(u) => assert_eq!(u.order_id, "oid"),
        _ => panic!("expected a broadcast"),
    }
}

#[test]
fn unmatched_frames_are_dropped() {
    assert!(matches!(route_message(None, None), FeedAction::Drop));
    assert!(matches!(
        route_message(Some(ticker_msg("otherTopic")), None),
        FeedAction::Drop
    ));
    assert!(matches!(
        route_message(None, Some(order_msg("public.trades"))),
        FeedAction::Drop
    ));
}

#[test]
fn ticker_decode_takes_precedence() {
    // A frame that decodes as a ticker but carries the wrong topic is
    // dropped without consulting the order decoder's result.
    let r = route_message(Some(ticker_msg("weird")), Some(order_msg("account.orderUpdate")));
    assert!(matches!(r, FeedAction::Drop));
}

#[test]
fn ticker_subscribe_frame_exact() {
    assert_eq!(
        ticker_subscribe_frame("APT_USDC_PERP"),
        "{\"method\":\"SUBSCRIBE\",\"params\":[\"bookTicker.APT_USDC_PERP\"]}"
    );
}

#[test]
fn order_subscribe_frame_exact() {
    let secret = base64::engine::general_purpose::STANDARD.encode([7u8; 32]);
    let auth = Authenticator::new("test-api-key".to_string(), &secret).unwrap();
    let block = auth.generate_ws_signature(42, 5000);
    let frame = order_subscribe_frame(&block);
    let expected = format!(
        "{{\"method\":\"SUBSCRIBE\",\"params\":[\"account.orderUpdate\"],\"signature\":[\"test-api-key\",\"{}\",\"42\",\"5000\"]}}",
        block[1]
    );
    assert_eq!(frame, expected);
}
