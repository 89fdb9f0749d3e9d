use base64::Engine;
use ed25519_dalek::Signer;

use perp_cycle::gateway::ApiClient;
use perp_cycle::gateway::HttpMethod;
use perp_cycle::gateway::RestOp;
use perp_cycle::gateway::interpret_status;
use perp_cycle::models::OrderRequest;
use perp_cycle::signing::Authenticator;

fn client() -> ApiClient {
    let secret = base64::engine::general_purpose::STANDARD.encode([9u8; 32]);
    ApiClient::new(Authenticator::new("key-id".to_string(), &secret).unwrap())
}

fn order(reduce_only: Option<bool>) -> OrderRequest {
    OrderRequest {
        symbol: "APT_USDC_PERP".to_string(),
        side: "Ask".to_string(),
        order_type: "Limit".to_string(),
        quantity: "100.0".to_string(),
        price: "3.19".to_string(),
        post_only: true,
        reduce_only,
    }
}

#[test]
fn place_order_request_exact() {
    let r = client().place_order_request(&order(None), 1000);
    assert!(matches!(r.method, HttpMethod::Post));
    assert_eq!(r.path, "/api/v1/order");
    assert_eq!(
        r.body,
        "{\"orderType\":\"Limit\",\"postOnly\":true,\"price\":\"3.19\",\"quantity\":\"100.0\",\"side\":\"Ask\",\"symbol\":\"APT_USDC_PERP\"}"
    );
    assert_eq!(r.headers.api_key, "key-id");
    assert_eq!(r.headers.timestamp, "1000");
    assert_eq!(r.headers.window, "5000");
    assert_eq!(r.headers.content_type, "application/json; charset=utf-8");
}

#[test]
fn place_order_reduce_only_in_body() {
    let r = client().place_order_request(&order(Some(true)), 1000);
    assert_eq!(
        r.body,
        "{\"orderType\":\"Limit\",\"postOnly\":true,\"price\":\"3.19\",\"quantity\":\"100.0\",\"reduceOnly\":true,\"side\":\"Ask\",\"symbol\":\"APT_USDC_PERP\"}"
    );
}

#[test]
fn get_positions_request_exact() {
    let r = client().get_positions_request(7);
    assert!(matches!(r.method, HttpMethod::Get));
    assert_eq!(r.path, "/api/v1/positions");
    assert_eq!(r.body, "");
    assert_eq!(r.headers.timestamp, "7");
}

#[test]
fn cancel_order_request_exact() {
    let r = client().cancel_order_request("oid-123", "APT_USDC_PERP", 7);
    assert!(matches!(r.method, HttpMethod::Delete));
    assert_eq!(r.path, "/api/v1/order");
    assert_eq!(
        r.body,
        "{\"orderId\":\"oid-123\",\"symbol\":\"APT_USDC_PERP\"}"
    );
}

#[test]
fn set_leverage_request_exact() {
    let r = client().set_leverage_request("1.0", 7);
    assert!(matches!(r.method, HttpMethod::Patch));
    assert_eq!(r.path, "/api/v1/account");
    assert_eq!(r.body, "{\"leverageLimit\":\"1.0\"}");
}

#[test]
fn get_positions_signature_over_empty_canonical_string() {
    let r = client().get_positions_request(7);
    // An empty body is still signed, over the empty canonical string.
    let payload = "instruction=positionQueryAll&timestamp=7&window=5000";
    let key = ed25519_dalek::SigningKey::from_bytes(&[9u8; 32]);
    let sig: ed25519_dalek::Signature = key.sign(payload.as_bytes());
    let expected = base64::engine::general_purpose::STANDARD.encode(sig.to_bytes());
    assert_eq!(r.headers.signature, expected);
}

#[test]
fn interpret_status_maps_failures() {
    assert!(interpret_status(&RestOp::PlaceOrder, true, "").is_ok());
    let e = interpret_status(&RestOp::PlaceOrder, false, "boom").unwrap_err();
    assert_eq!(e.message(), "Order placement failed: boom");
    let e = interpret_status(&RestOp::CancelOrder, false, "gone").unwrap_err();
    assert_eq!(e.message(), "Failed to cancel order: gone");
    let e = interpret_status(&RestOp::GetPositions, false, "x").unwrap_err();
    assert_eq!(e.message(), "Failed to get positions: x");
    let e = interpret_status(&RestOp::SetLeverage, false, "y").unwrap_err();
    assert_eq!(e.message(), "Failed to set leverage: y");
}
