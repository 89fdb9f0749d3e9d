//! Request signing: an API key plus an Ed25519 private key, and the
//! construction of the authentication header set over the canonical
//! parameter string. Signing is deterministic in (credentials, instruction,
//! params, timestamp, window); the cryptographic primitives themselves are
//! trusted, named results of the outside crates.

use vstd::prelude::*;
use vstd::string::StringExecFns;

use base64::Engine;
use ed25519_dalek::Signer;

use crate::models::BotError;
use crate::params::canonicalize;
use crate::params::canonical_params;
use crate::params::distinct_keys;
use crate::params::views_of;
use crate::params::Param;
use crate::text::dec_rep;
use crate::text::u64_to_dec;

verus! {

/// The signature validity window applied to every signed request, in
/// milliseconds.
pub const DEFAULT_WINDOW_MS: u64 = 5000;

/// The Ed25519 signature of `msg`'s UTF-8 bytes under the private key with
/// seed `seed`. Ed25519 signing is deterministic: the signature is a
/// function of the key and the message alone.
pub uninterp spec fn ed25519_sig_of(seed: Seq<u8>, msg: Seq<char>) -> Seq<u8>;

/// The standard base64 encoding (with padding) of `bytes`.
pub uninterp spec fn base64_of(bytes: Seq<u8>) -> Seq<char>;

/// The standard base64 decoding of `s`: the decoded bytes, or `None` when
/// `s` is not valid base64.
pub uninterp spec fn base64_decode_of(s: Seq<char>) -> Option<Seq<u8>>;

/// Relies on ed25519_dalek: `SigningKey::from_bytes` on a 32-byte seed and
/// `Signer::sign`, which is deterministic per RFC 8032 and yields a 64-byte
/// signature.
#[verifier::external_body]
fn ed25519_sign(seed: &Vec<u8>, msg: &str) -> (r: Vec<u8>)
    requires
        seed@.len() == 32,
    ensures
        r@ == ed25519_sig_of(seed@, msg@),
        r@.len() == 64,
{
    let bytes: &[u8; 32] = seed.as_slice().try_into().unwrap();
    let key = ed25519_dalek::SigningKey::from_bytes(bytes);
    let sig = key.sign(msg.as_bytes());
    sig.to_bytes().to_vec()
}

/// Relies on base64's `Engine::encode` with the standard alphabet and
/// padding; the encoding is a function of the input bytes alone.
#[verifier::external_body]
fn b64_encode(bytes: &Vec<u8>) -> (r: String)
    ensures
        r@ == base64_of(bytes@),
{
    base64::engine::general_purpose::STANDARD.encode(bytes.as_slice())
}

/// Relies on base64's `Engine::decode` with the standard alphabet: it
/// returns the decoded bytes exactly when the input is valid base64.
#[verifier::external_body]
fn b64_decode(s: &str) -> (r: Option<Vec<u8>>)
    ensures
        match r {
            Some(v) => base64_decode_of(s@) == Some(v@),
            None => base64_decode_of(s@) is None,
        },
{
    match base64::engine::general_purpose::STANDARD.decode(s.as_bytes()) {
        Ok(v) => Some(v),
        Err(_) => None,
    }
}

/// Relies on chrono's `Utc::now().timestamp_millis()`: the current time,
/// about which nothing is promised.
#[verifier::external_body]
fn now_millis() -> i64 {
    chrono::Utc::now().timestamp_millis()
}

/// The current time as unsigned milliseconds, clamping any pre-epoch clock
/// to zero. The value depends on the clock; nothing is promised of it.
pub fn current_timestamp() -> u64 {
    let t = now_millis();
    if t < 0 {
        0
    } else {
        t as u64
    }
}

/// The exact byte string that is signed for a request:
/// `instruction=<i>[&<canonical params>]&timestamp=<t>&window=<w>`, the
/// parameter block omitted when the canonical string is empty.
pub open spec fn signing_payload(instr: Seq<char>, canon: Seq<char>, ts: u64, w: u64) -> Seq<
    char,
> {
    "instruction="@ + instr + (if canon.len() == 0 {
        Seq::empty()
    } else {
        seq!['&'] + canon
    }) + "&timestamp="@ + dec_rep(ts as nat) + "&window="@ + dec_rep(w as nat)
}

/// Builds the signable payload string.
pub fn build_signing_payload(instruction: &str, canon: &str, ts: u64, w: u64) -> (r: String)
    ensures
        r@ == signing_payload(instruction@, canon@, ts, w),
{
    let mut s = String::from_str("instruction=");
    s.append(instruction);
    if !canon.is_empty() {
        s.append("&");
        s.append(canon);
    }
    s.append("&timestamp=");
    let t = u64_to_dec(ts);
    s.append(t.as_str());
    s.append("&window=");
    let wd = u64_to_dec(w);
    s.append(wd.as_str());
    proof {
        reveal_strlit("&");
        assert("&"@ =~= seq!['&']);
        assert(s@ =~= signing_payload(instruction@, canon@, ts, w));
    }
    s
}

/// The authentication header set attached to every REST call.
pub struct AuthHeaders {
    pub api_key: String,
    pub timestamp: String,
    pub window: String,
    pub signature: String,
    pub content_type: String,
}

/// The request signer: the API key identifier and the Ed25519 seed it
/// signs with. Immutable for the process lifetime.
pub struct Authenticator {
    api_key: String,
    seed: Vec<u8>,
}

impl Authenticator {
    /// A usable signer holds a full 32-byte seed.
    pub closed spec fn wf(&self) -> bool {
        self.seed@.len() == 32
    }

    pub closed spec fn spec_api_key(&self) -> Seq<char> {
        self.api_key@
    }

    pub closed spec fn spec_seed(&self) -> Seq<u8> {
        self.seed@
    }

    /// Builds a signer from the API key and the base64-encoded 32-byte
    /// private key seed. Fails exactly when the secret is not valid base64
    /// of exactly 32 bytes; that is a fatal configuration error for the
    /// caller, not a per-call failure.
    pub fn new(api_key: String, api_secret_b64: &str) -> (r: Result<Authenticator, BotError>)
        ensures
            match r {
                Ok(a) => {
                    &&& a.wf()
                    &&& a.spec_api_key() == api_key@
                    &&& base64_decode_of(api_secret_b64@) == Some(a.spec_seed())
                },
                Err(e) => {
                    &&& e is AuthError
                    &&& match base64_decode_of(api_secret_b64@) {
                        Some(s) => s.len() != 32,
                        None => true,
                    }
                },
            },
    {
        match b64_decode(api_secret_b64) {
            Some(seed) => {
                if seed.len() == 32 {
                    Ok(Authenticator { api_key, seed })
                } else {
                    Err(BotError::AuthError(String::from_str("API secret must decode to 32 bytes")))
                }
            },
            None => Err(
                BotError::AuthError(String::from_str("API secret is not valid base64")),
            ),
        }
    }

    /// The authentication headers for one REST call: the key identifier,
    /// the timestamp and window in decimal, the base64 Ed25519 signature
    /// over the signing payload of the canonical parameter string, and the
    /// fixed content type.
    pub fn generate_rest_headers(
        &self,
        instruction: &str,
        params: &Vec<Param>,
        timestamp: u64,
        window: u64,
    ) -> (h: AuthHeaders)
        requires
            self.wf(),
            distinct_keys(views_of(params@)),
        ensures
            h.api_key@ == self.spec_api_key(),
            h.timestamp@ == dec_rep(timestamp as nat),
            h.window@ == dec_rep(window as nat),
            h.signature@ == base64_of(
                ed25519_sig_of(
                    self.spec_seed(),
                    signing_payload(
                        instruction@,
                        canonical_params(views_of(params@)),
                        timestamp,
                        window,
                    ),
                ),
            ),
            h.content_type@ == "application/json; charset=utf-8"@,
    {
        let canon = canonicalize(params);
        let payload = build_signing_payload(instruction, canon.as_str(), timestamp, window);
        let sig = ed25519_sign(&self.seed, payload.as_str());
        let signature = b64_encode(&sig);
        AuthHeaders {
            api_key: self.api_key.clone(),
            timestamp: u64_to_dec(timestamp),
            window: u64_to_dec(window),
            signature,
            content_type: String::from_str("application/json; charset=utf-8"),
        }
    }

    /// The four-element signature block of the private stream subscription:
    /// `[api key, signature, timestamp, window]`, signed with the fixed
    /// `subscribe` instruction and no body parameters.
    pub fn generate_ws_signature(&self, timestamp: u64, window: u64) -> (r: Vec<String>)
        requires
            self.wf(),
        ensures
            r@.len() == 4,
            r@[0]@ == self.spec_api_key(),
            r@[1]@ == base64_of(
                ed25519_sig_of(
                    self.spec_seed(),
                    signing_payload("subscribe"@, Seq::empty(), timestamp, window),
                ),
            ),
            r@[2]@ == dec_rep(timestamp as nat),
            r@[3]@ == dec_rep(window as nat),
    {
        let empty = String::new();
        let payload = build_signing_payload("subscribe", empty.as_str(), timestamp, window);
        let sig = ed25519_sign(&self.seed, payload.as_str());
        let signature = b64_encode(&sig);
        let mut r: Vec<String> = Vec::new();
        r.push(self.api_key.clone());
        r.push(signature);
        r.push(u64_to_dec(timestamp));
        r.push(u64_to_dec(window));
        r
    }
}

impl Clone for Authenticator {
    fn clone(&self) -> (r: Self)
        ensures
            r.wf() == self.wf(),
            r.spec_api_key() == self.spec_api_key(),
            r.spec_seed() == self.spec_seed(),
    {
        Authenticator { api_key: self.api_key.clone(), seed: clone_bytes(&self.seed) }
    }
}

/// Copies a byte vector element by element.
fn clone_bytes(v: &Vec<u8>) -> (r: Vec<u8>)
    ensures
        r@ == v@,
{
    let mut r: Vec<u8> = Vec::new();
    let mut i: usize = 0;
    while i < v.len()
        invariant
            0 <= i <= v@.len(),
            r@ == v@.subrange(0, i as int),
        decreases v@.len() - i,
    {
        r.push(v[i]);
        proof {
            assert(r@ =~= v@.subrange(0, i + 1));
        }
        i = i + 1;
    }
    proof {
        assert(v@.subrange(0, v@.len() as int) =~= v@);
    }
    r
}

} // verus!
