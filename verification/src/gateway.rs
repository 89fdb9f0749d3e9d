//! The REST gateway: for each exchange operation it fixes the HTTP method,
//! path and instruction name, builds the request body's field list, renders
//! the JSON body from the same canonical field order that gets signed, and
//! produces the authentication headers. Sending the request and decoding
//! the response body happen outside the verified core; a non-success
//! status maps back through `interpret_status` to the operation's error.

use vstd::prelude::*;
use vstd::string::StringExecFns;

use crate::json::json_object;
use crate::json::render_json;
use crate::models::BotError;
use crate::models::OrderRequest;
use crate::params::canonical_fields;
use crate::params::canonical_fields_vec;
use crate::params::canonical_params;
use crate::params::distinct_keys;
use crate::params::views_of;
use crate::params::Param;
use crate::params::ParamValue;
use crate::params::ParamView;
use crate::params::ValueView;
use crate::signing::AuthHeaders;
use crate::signing::Authenticator;
use crate::signing::base64_of;
use crate::signing::ed25519_sig_of;
use crate::signing::signing_payload;
use crate::signing::DEFAULT_WINDOW_MS;
use crate::text::dec_rep;

verus! {

/// The HTTP method of a prepared request.
pub enum HttpMethod {
    Get,
    Post,
    Delete,
    Patch,
}

/// One fully prepared authenticated REST call: everything the transport
/// needs to send it.
pub struct PreparedRequest {
    pub method: HttpMethod,
    pub path: String,
    pub headers: AuthHeaders,
    pub body: String,
}

/// The four exchange operations the gateway issues.
pub enum RestOp {
    PlaceOrder,
    CancelOrder,
    GetPositions,
    SetLeverage,
}

/// The header set is correct for signer `a`, instruction `instr` and body
/// fields `ps` at time `ts`, under the fixed window.
pub open spec fn signed_headers_ok(
    h: AuthHeaders,
    a: Authenticator,
    instr: Seq<char>,
    ps: Seq<ParamView>,
    ts: u64,
) -> bool {
    &&& h.api_key@ == a.spec_api_key()
    &&& h.timestamp@ == dec_rep(ts as nat)
    &&& h.window@ == dec_rep(DEFAULT_WINDOW_MS as nat)
    &&& h.signature@ == base64_of(
        ed25519_sig_of(
            a.spec_seed(),
            signing_payload(instr, canonical_params(ps), ts, DEFAULT_WINDOW_MS),
        ),
    )
    &&& h.content_type@ == "application/json; charset=utf-8"@
}

/// The body fields of an order placement, in request order.
pub open spec fn order_param_views(o: OrderRequest) -> Seq<ParamView> {
    seq![
        ParamView { key: "symbol"@, value: ValueView::Str(o.symbol@) },
        ParamView { key: "side"@, value: ValueView::Str(o.side@) },
        ParamView { key: "orderType"@, value: ValueView::Str(o.order_type@) },
        ParamView { key: "quantity"@, value: ValueView::Str(o.quantity@) },
        ParamView { key: "price"@, value: ValueView::Str(o.price@) },
        ParamView { key: "postOnly"@, value: ValueView::Bool(o.post_only) },
    ] + (match o.reduce_only {
        Some(b) => seq![ParamView { key: "reduceOnly"@, value: ValueView::Bool(b) }],
        None => Seq::empty(),
    })
}

/// The body fields of an order cancellation.
pub open spec fn cancel_param_views(symbol: Seq<char>, order_id: Seq<char>) -> Seq<ParamView> {
    seq![
        ParamView { key: "symbol"@, value: ValueView::Str(symbol) },
        ParamView { key: "orderId"@, value: ValueView::Str(order_id) },
    ]
}

/// The body fields of a leverage update.
pub open spec fn leverage_param_views(leverage: Seq<char>) -> Seq<ParamView> {
    seq![ParamView { key: "leverageLimit"@, value: ValueView::Str(leverage) }]
}

proof fn lemma_order_keys_distinct(o: OrderRequest)
    ensures
        distinct_keys(order_param_views(o)),
{
    reveal_strlit("symbol");
    reveal_strlit("side");
    reveal_strlit("orderType");
    reveal_strlit("quantity");
    reveal_strlit("price");
    reveal_strlit("postOnly");
    reveal_strlit("reduceOnly");
    let v = order_param_views(o);
    assert("quantity"@[0] != "postOnly"@[0]);
    assert forall|i: int, j: int| 0 <= i < j < v.len() implies (#[trigger] v[i]).key != (
    #[trigger] v[j]).key by {
        assert(v[0].key == "symbol"@ && v[1].key == "side"@ && v[2].key == "orderType"@ && v[3].key
            == "quantity"@ && v[4].key == "price"@ && v[5].key == "postOnly"@);
        if v.len() == 7 {
            assert(v[6].key == "reduceOnly"@);
        }
    }
}

proof fn lemma_cancel_keys_distinct(symbol: Seq<char>, order_id: Seq<char>)
    ensures
        distinct_keys(cancel_param_views(symbol, order_id)),
{
    reveal_strlit("symbol");
    reveal_strlit("orderId");
    let v = cancel_param_views(symbol, order_id);
    assert forall|i: int, j: int| 0 <= i < j < v.len() implies (#[trigger] v[i]).key != (
    #[trigger] v[j]).key by {
        assert(v[0].key == "symbol"@ && v[1].key == "orderId"@);
    }
}

/// The stateless REST gateway: it prepares signed calls, retries nothing,
/// and leaves retry policy to its caller.
pub struct ApiClient {
    authenticator: Authenticator,
}

impl ApiClient {
    pub closed spec fn spec_auth(&self) -> Authenticator {
        self.authenticator
    }

    pub open spec fn wf(&self) -> bool {
        self.spec_auth().wf()
    }

    pub fn new(authenticator: Authenticator) -> (r: ApiClient)
        ensures
            r.spec_auth() == authenticator,
    {
        ApiClient { authenticator }
    }

    /// Prepares the order placement call: POST `/api/v1/order`, instruction
    /// `orderExecute`, body and signature over the order's fields.
    pub fn place_order_request(&self, order: &OrderRequest, timestamp: u64) -> (r: PreparedRequest)
        requires
            self.wf(),
        ensures
            r.method is Post,
            r.path@ == "/api/v1/order"@,
            r.body@ == json_object(canonical_fields(order_param_views(*order))),
            signed_headers_ok(
                r.headers,
                self.spec_auth(),
                "orderExecute"@,
                order_param_views(*order),
                timestamp,
            ),
    {
        let mut ps: Vec<Param> = Vec::new();
        ps.push(Param { key: String::from_str("symbol"), value: ParamValue::Str(order.symbol.clone()) });
        ps.push(Param { key: String::from_str("side"), value: ParamValue::Str(order.side.clone()) });
        ps.push(
            Param {
                key: String::from_str("orderType"),
                value: ParamValue::Str(order.order_type.clone()),
            },
        );
        ps.push(
            Param {
                key: String::from_str("quantity"),
                value: ParamValue::Str(order.quantity.clone()),
            },
        );
        ps.push(Param { key: String::from_str("price"), value: ParamValue::Str(order.price.clone()) });
        ps.push(Param { key: String::from_str("postOnly"), value: ParamValue::Bool(order.post_only) });
        match order.reduce_only {
            Some(b) => {
                ps.push(Param { key: String::from_str("reduceOnly"), value: ParamValue::Bool(b) });
            },
            None => {},
        }
        proof {
            assert(views_of(ps@) =~= order_param_views(*order));
            lemma_order_keys_distinct(*order);
        }
        let sorted = canonical_fields_vec(&ps);
        let body = render_json(&sorted);
        let headers = self.authenticator.generate_rest_headers(
            "orderExecute",
            &ps,
            timestamp,
            DEFAULT_WINDOW_MS,
        );
        PreparedRequest {
            method: HttpMethod::Post,
            path: String::from_str("/api/v1/order"),
            headers,
            body,
        }
    }

    /// Prepares the position query: GET `/api/v1/positions`, instruction
    /// `positionQueryAll`, an empty body still signed over the empty
    /// canonical string.
    pub fn get_positions_request(&self, timestamp: u64) -> (r: PreparedRequest)
        requires
            self.wf(),
        ensures
            r.method is Get,
            r.path@ == "/api/v1/positions"@,
            r.body@ == Seq::<char>::empty(),
            signed_headers_ok(
                r.headers,
                self.spec_auth(),
                "positionQueryAll"@,
                Seq::empty(),
                timestamp,
            ),
    {
        let ps: Vec<Param> = Vec::new();
        proof {
            assert(views_of(ps@) =~= Seq::<ParamView>::empty());
        }
        let headers = self.authenticator.generate_rest_headers(
            "positionQueryAll",
            &ps,
            timestamp,
            DEFAULT_WINDOW_MS,
        );
        PreparedRequest {
            method: HttpMethod::Get,
            path: String::from_str("/api/v1/positions"),
            headers,
            body: String::new(),
        }
    }

    /// Prepares the order cancellation: DELETE `/api/v1/order` with a body,
    /// instruction `orderCancel`.
    pub fn cancel_order_request(&self, order_id: &str, symbol: &str, timestamp: u64) -> (r:
        PreparedRequest)
        requires
            self.wf(),
        ensures
            r.method is Delete,
            r.path@ == "/api/v1/order"@,
            r.body@ == json_object(canonical_fields(cancel_param_views(symbol@, order_id@))),
            signed_headers_ok(
                r.headers,
                self.spec_auth(),
                "orderCancel"@,
                cancel_param_views(symbol@, order_id@),
                timestamp,
            ),
    {
        let mut ps: Vec<Param> = Vec::new();
        ps.push(Param { key: String::from_str("symbol"), value: ParamValue::Str(String::from_str(symbol)) });
        ps.push(
            Param {
                key: String::from_str("orderId"),
                value: ParamValue::Str(String::from_str(order_id)),
            },
        );
        proof {
            assert(views_of(ps@) =~= cancel_param_views(symbol@, order_id@));
            lemma_cancel_keys_distinct(symbol@, order_id@);
        }
        let sorted = canonical_fields_vec(&ps);
        let body = render_json(&sorted);
        let headers = self.authenticator.generate_rest_headers(
            "orderCancel",
            &ps,
            timestamp,
            DEFAULT_WINDOW_MS,
        );
        PreparedRequest {
            method: HttpMethod::Delete,
            path: String::from_str("/api/v1/order"),
            headers,
            body,
        }
    }

    /// Prepares the leverage update: PATCH `/api/v1/account`, instruction
    /// `accountUpdate`. Called once at startup; its failure is fatal for
    /// the caller.
    pub fn set_leverage_request(&self, leverage: &str, timestamp: u64) -> (r: PreparedRequest)
        requires
            self.wf(),
        ensures
            r.method is Patch,
            r.path@ == "/api/v1/account"@,
            r.body@ == json_object(canonical_fields(leverage_param_views(leverage@))),
            signed_headers_ok(
                r.headers,
                self.spec_auth(),
                "accountUpdate"@,
                leverage_param_views(leverage@),
                timestamp,
            ),
    {
        let mut ps: Vec<Param> = Vec::new();
        ps.push(
            Param {
                key: String::from_str("leverageLimit"),
                value: ParamValue::Str(String::from_str(leverage)),
            },
        );
        proof {
            assert(views_of(ps@) =~= leverage_param_views(leverage@));
        }
        let sorted = canonical_fields_vec(&ps);
        let body = render_json(&sorted);
        let headers = self.authenticator.generate_rest_headers(
            "accountUpdate",
            &ps,
            timestamp,
            DEFAULT_WINDOW_MS,
        );
        PreparedRequest {
            method: HttpMethod::Patch,
            path: String::from_str("/api/v1/account"),
            headers,
            body,
        }
    }
}

/// The error-message prefix of each operation's rejection.
pub open spec fn failure_prefix(op: RestOp) -> Seq<char> {
    match op {
        RestOp::PlaceOrder => "Order placement failed: "@,
        RestOp::CancelOrder => "Failed to cancel order: "@,
        RestOp::GetPositions => "Failed to get positions: "@,
        RestOp::SetLeverage => "Failed to set leverage: "@,
    }
}

/// Maps an HTTP outcome back to the operation's result: success passes,
/// any non-success status becomes the operation's typed rejection carrying
/// the response text. The gateway never retries; that policy belongs to
/// the caller.
pub fn interpret_status(op: &RestOp, success: bool, error_text: &str) -> (r: Result<
    (),
    BotError,
>)
    ensures
        r is Ok <==> success,
        r matches Err(e) ==> e is StrategyError && e.spec_message()@ == failure_prefix(*op)
            + error_text@,
{
    if success {
        Ok(())
    } else {
        let mut m = match op {
            RestOp::PlaceOrder => String::from_str("Order placement failed: "),
            RestOp::CancelOrder => String::from_str("Failed to cancel order: "),
            RestOp::GetPositions => String::from_str("Failed to get positions: "),
            RestOp::SetLeverage => String::from_str("Failed to set leverage: "),
        };
        m.append(error_text);
        Err(BotError::StrategyError(m))
    }
}

} // verus!
