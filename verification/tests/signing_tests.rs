use base64::Engine;
use ed25519_dalek::Signature;
use ed25519_dalek::Signer;
use ed25519_dalek::SigningKey;
use ed25519_dalek::Verifier;

use perp_cycle::params::Param;
use perp_cycle::params::ParamValue;
use perp_cycle::signing::Authenticator;
use perp_cycle::signing::build_signing_payload;
use perp_cycle::signing::DEFAULT_WINDOW_MS;

const SEED: [u8; 32] = [7u8; 32];

fn authenticator() -> Authenticator {
    let secret = base64::engine::general_purpose::STANDARD.encode(SEED);
    Authenticator::new("test-api-key".to_string(), &secret).unwrap()
}

fn order_params() -> Vec<Param> {
    vec![
        Param { key: "symbol".to_string(), value: ParamValue::Str("APT_USDC_PERP".to_string()) },
        Param { key: "side".to_string(), value: ParamValue::Str("Ask".to_string()) },
        Param { key: "orderType".to_string(), value: ParamValue::Str("Limit".to_string()) },
        Param { key: "quantity".to_string(), value: ParamValue::Str("100.0".to_string()) },
        Param { key: "price".to_string(), value: ParamValue::Str("3.19".to_string()) },
        Param { key: "postOnly".to_string(), value: ParamValue::Bool(true) },
    ]
}

#[test]
fn bad_secret_is_rejected() {
    let r = Authenticator::new("k".to_string(), "!!!not-base64!!!");
    assert!(r.is_err());
    // Valid base64, wrong length.
    let short = base64::engine::general_purpose::STANDARD.encode([1u8; 16]);
    assert!(Authenticator::new("k".to_string(), &short).is_err());
    let ok = base64::engine::general_purpose::STANDARD.encode([1u8; 32]);
    assert!(Authenticator::new("k".to_string(), &ok).is_ok());
}

#[test]
fn signing_payload_shape() {
    let p = build_signing_payload("orderExecute", "a=1&b=2", 1700000000123, 5000);
    assert_eq!(
        p,
        "instruction=orderExecute&a=1&b=2&timestamp=1700000000123&window=5000"
    );
    let q = build_signing_payload("positionQueryAll", "", 7, 5000);
    assert_eq!(q, "instruction=positionQueryAll&timestamp=7&window=5000");
}

#[test]
fn rest_headers_are_exact_and_signature_verifies() {
    let auth = authenticator();
    let ts: u64 = 1700000000123;
    let h = auth.generate_rest_headers("orderExecute", &order_params(), ts, DEFAULT_WINDOW_MS);
    assert_eq!(h.api_key, "test-api-key");
    assert_eq!(h.timestamp, "1700000000123");
    assert_eq!(h.window, "5000");
    assert_eq!(h.content_type, "application/json; charset=utf-8");

    let expected_payload = "instruction=orderExecute&orderType=Limit&postOnly=true&price=3.19&quantity=100.0&side=Ask&symbol=APT_USDC_PERP&timestamp=1700000000123&window=5000";
    let key = SigningKey::from_bytes(&SEED);

    // The produced signature is exactly the deterministic Ed25519
    // signature of the expected payload.
    let independent: Signature = key.sign(expected_payload.as_bytes());
    let expected_sig = base64::engine::general_purpose::STANDARD.encode(independent.to_bytes());
    assert_eq!(h.signature, expected_sig);

    // Round trip: the signature verifies under the corresponding public key.
    let sig_bytes = base64::engine::general_purpose::STANDARD
        .decode(h.signature.as_bytes())
        .unwrap();
    let sig = Signature::from_slice(&sig_bytes).unwrap();
    let verifying = key.verifying_key();
    assert!(verifying.verify(expected_payload.as_bytes(), &sig).is_ok());

    // Altering one byte of the payload fails verification.
    let mut tampered = expected_payload.as_bytes().to_vec();
    tampered[0] ^= 1;
    assert!(verifying.verify(&tampered, &sig).is_err());
}

#[test]
fn ws_signature_block() {
    let auth = authenticator();
    let block = auth.generate_ws_signature(42, 5000);
    assert_eq!(block.len(), 4);
    assert_eq!(block[0], "test-api-key");
    assert_eq!(block[2], "42");
    assert_eq!(block[3], "5000");

    let key = SigningKey::from_bytes(&SEED);
    let payload = "instruction=subscribe&timestamp=42&window=5000";
    let independent: Signature = key.sign(payload.as_bytes());
    let expected = base64::engine::general_purpose::STANDARD.encode(independent.to_bytes());
    assert_eq!(block[1], expected);
}
